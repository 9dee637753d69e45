use circle::chama::{claim_round, contribute, create_chama, join_chama, Chama, ChamaError, Payout};

fn fresh(max_members: u8) -> Chama {
    create_chama(b"savings".to_vec(), 100, 60, max_members, 1).unwrap()
}

/// A three-member group just activated at time 1000 (deadline 1060).
fn active_trio() -> Chama {
    let mut g = fresh(3);
    assert_eq!(join_chama(&mut g, 2, 900), Ok(()));
    assert_eq!(join_chama(&mut g, 3, 1000), Ok(()));
    assert!(g.is_active);
    g
}

#[test]
fn create_valid_initial_state() {
    let g = fresh(3);
    assert_eq!(g.admin, 1);
    assert_eq!(g.name, b"savings".to_vec());
    assert_eq!(g.contribution_amount, 100);
    assert_eq!(g.epoch_period, 60);
    assert_eq!(g.max_members, 3);
    assert_eq!(g.member_count, 1);
    assert_eq!(g.members, vec![1]);
    assert_eq!(g.member_claimed, vec![false]);
    assert_eq!(g.current_round, 0);
    assert_eq!(g.total_rounds_completed, 0);
    assert_eq!(g.epoch_end_time, 0);
    assert!(!g.is_active);
    assert_eq!(g.escrow_balance, 0);
}

#[test]
fn create_accepts_boundary_parameters() {
    let g = create_chama(vec![7u8; 32], 1, 60, 2, 9).unwrap();
    assert_eq!(g.member_count, 1);
    assert!(!g.is_active);
    assert!(g.members.contains(&9));
    let g = create_chama(Vec::new(), u64::MAX, i64::MAX, 20, 9).unwrap();
    assert_eq!(g.member_count, 1);
    assert!(!g.is_active);
}

#[test]
fn create_name_too_long() {
    let r = create_chama(vec![0u8; 33], 100, 60, 3, 1);
    assert!(matches!(r, Err(ChamaError::NameTooLong)));
}

#[test]
fn create_zero_contribution() {
    let r = create_chama(b"g".to_vec(), 0, 60, 3, 1);
    assert!(matches!(r, Err(ChamaError::InvalidContributionAmount)));
}

#[test]
fn create_invalid_max_members() {
    let r = create_chama(b"g".to_vec(), 100, 60, 1, 1);
    assert!(matches!(r, Err(ChamaError::InvalidMaxMembers)));
    let r = create_chama(b"g".to_vec(), 100, 60, 21, 1);
    assert!(matches!(r, Err(ChamaError::InvalidMaxMembers)));
}

#[test]
fn create_epoch_too_short() {
    let r = create_chama(b"g".to_vec(), 100, 59, 3, 1);
    assert!(matches!(r, Err(ChamaError::EpochTooShort)));
}

#[test]
fn join_duplicate_fails() {
    let mut g = fresh(3);
    assert_eq!(join_chama(&mut g, 1, 900), Err(ChamaError::MemberAlreadyJoined));
    assert_eq!(join_chama(&mut g, 2, 900), Ok(()));
    assert_eq!(join_chama(&mut g, 2, 901), Err(ChamaError::MemberAlreadyJoined));
    assert_eq!(g.member_count, 2);
    assert_eq!(g.members, vec![1, 2]);
}

#[test]
fn join_full_fails() {
    let mut g = active_trio();
    assert_eq!(join_chama(&mut g, 4, 1001), Err(ChamaError::ChamaFull));
    assert_eq!(g.member_count, 3);
    assert_eq!(g.members, vec![1, 2, 3]);
}

#[test]
fn join_activates_exactly_at_capacity() {
    let mut g = fresh(3);
    assert_eq!(join_chama(&mut g, 2, 900), Ok(()));
    assert!(!g.is_active);
    assert_eq!(g.epoch_end_time, 0);
    assert_eq!(join_chama(&mut g, 3, 1000), Ok(()));
    assert!(g.is_active);
    assert_eq!(g.epoch_end_time, 1060);
    assert_eq!(g.member_claimed, vec![false, false, false]);
}

#[test]
fn join_forming_but_active_record_is_rejected() {
    // A record that claims to be active while below capacity cannot arise
    // from the operations; the admission code still refuses it.
    let mut g = Chama {
        admin: 1,
        name: b"g".to_vec(),
        contribution_amount: 100,
        epoch_period: 60,
        max_members: 3,
        member_count: 2,
        current_round: 0,
        total_rounds_completed: 0,
        epoch_end_time: 1060,
        is_active: true,
        members: vec![1, 2],
        member_claimed: vec![false, false],
        escrow_balance: 0,
    };
    assert_eq!(join_chama(&mut g, 3, 1000), Err(ChamaError::ChamaAlreadyActive));
    assert_eq!(g.member_count, 2);
}

#[test]
fn contribute_before_activation_fails() {
    let mut g = fresh(3);
    assert_eq!(contribute(&mut g, 1, 10), Err(ChamaError::ChamaNotActive));
    assert_eq!(g.escrow_balance, 0);
}

#[test]
fn contribute_non_member_fails() {
    let mut g = active_trio();
    assert_eq!(contribute(&mut g, 99, 1010), Err(ChamaError::NotAMember));
    assert_eq!(g.escrow_balance, 0);
}

#[test]
fn contribute_after_window_fails() {
    let mut g = active_trio();
    assert_eq!(contribute(&mut g, 2, 1060), Err(ChamaError::EpochEnded));
    assert_eq!(contribute(&mut g, 2, 5000), Err(ChamaError::EpochEnded));
    assert_eq!(g.escrow_balance, 0);
}

#[test]
fn contribute_success_adds_to_escrow() {
    let mut g = active_trio();
    assert_eq!(contribute(&mut g, 1, 1010), Ok(()));
    assert_eq!(g.escrow_balance, 100);
    assert_eq!(contribute(&mut g, 1, 1020), Ok(()));
    assert_eq!(contribute(&mut g, 3, 1059), Ok(()));
    assert_eq!(g.escrow_balance, 300);
}

#[test]
fn claim_before_epoch_end_fails() {
    let mut g = active_trio();
    assert_eq!(contribute(&mut g, 1, 1010), Ok(()));
    assert_eq!(claim_round(&mut g, 1000, 10), Err(ChamaError::EpochNotEnded));
    assert_eq!(claim_round(&mut g, 1059, 10), Err(ChamaError::EpochNotEnded));
    assert_eq!(g.current_round, 0);
    assert_eq!(g.escrow_balance, 100);
}

#[test]
fn claim_not_active_fails() {
    let mut g = fresh(3);
    assert_eq!(claim_round(&mut g, 5000, 10), Err(ChamaError::ChamaNotActive));
}

#[test]
fn claim_already_paid_slot_fails() {
    // A record whose current slot is already flagged paid cannot arise from
    // the operations; the claim code still refuses it.
    let mut g = Chama {
        admin: 1,
        name: b"g".to_vec(),
        contribution_amount: 100,
        epoch_period: 60,
        max_members: 2,
        member_count: 2,
        current_round: 0,
        total_rounds_completed: 0,
        epoch_end_time: 1060,
        is_active: true,
        members: vec![1, 2],
        member_claimed: vec![true, false],
        escrow_balance: 500,
    };
    assert_eq!(claim_round(&mut g, 1060, 10), Err(ChamaError::MemberAlreadyClaimed));
    assert_eq!(g.escrow_balance, 500);
}

#[test]
fn claim_insufficient_funds_fails() {
    let mut g = active_trio();
    assert_eq!(claim_round(&mut g, 1060, 0), Err(ChamaError::InsufficientFunds));
    assert_eq!(contribute(&mut g, 1, 1010), Ok(()));
    assert_eq!(claim_round(&mut g, 1060, 100), Err(ChamaError::InsufficientFunds));
    assert_eq!(claim_round(&mut g, 1060, 500), Err(ChamaError::InsufficientFunds));
    assert_eq!(g.current_round, 0);
    assert_eq!(g.escrow_balance, 100);
}

#[test]
fn full_cycle_scenario() {
    // Created with max_members 3, contribution 100, period 60; the third join
    // at time 1000 activates the group with deadline 1060; each round is then
    // claimed in order, paying escrow minus the reserve floor of 10, and the
    // third claim wraps the cycle.
    let mut g = active_trio();
    assert_eq!(contribute(&mut g, 1, 1010), Ok(()));
    assert_eq!(contribute(&mut g, 2, 1010), Ok(()));
    assert_eq!(contribute(&mut g, 3, 1010), Ok(()));
    assert_eq!(g.escrow_balance, 300);

    assert_eq!(claim_round(&mut g, 1060, 10), Ok(Payout { recipient: 1, amount: 290 }));
    assert_eq!(g.current_round, 1);
    assert_eq!(g.member_claimed, vec![true, false, false]);
    assert_eq!(g.epoch_end_time, 1120);
    assert_eq!(g.escrow_balance, 10);

    assert_eq!(contribute(&mut g, 2, 1070), Ok(()));
    assert_eq!(claim_round(&mut g, 1120, 10), Ok(Payout { recipient: 2, amount: 100 }));
    assert_eq!(g.current_round, 2);
    assert_eq!(g.member_claimed, vec![true, true, false]);

    assert_eq!(contribute(&mut g, 3, 1130), Ok(()));
    assert_eq!(claim_round(&mut g, 1185, 10), Ok(Payout { recipient: 3, amount: 100 }));

    // The cycle wrapped: one full cycle done, round back to 0, no slot paid.
    assert_eq!(g.total_rounds_completed, 1);
    assert_eq!(g.current_round, 0);
    assert_eq!(g.member_claimed, vec![false, false, false]);
    assert_eq!(g.epoch_end_time, 1245);
    assert!(g.is_active);

    // The schedule repeats: the next round pays slot 0 again.
    assert_eq!(contribute(&mut g, 1, 1200), Ok(()));
    assert_eq!(claim_round(&mut g, 1245, 10), Ok(Payout { recipient: 1, amount: 100 }));
    assert_eq!(g.total_rounds_completed, 1);
    assert_eq!(g.current_round, 1);
}

#[test]
fn recipient_follows_member_order() {
    // Two groups with the same membership pay the same recipient each round,
    // whatever the times, amounts and reserve floors were.
    let mut a = active_trio();
    let mut b = active_trio();
    assert_eq!(contribute(&mut a, 1, 1010), Ok(()));
    assert_eq!(contribute(&mut b, 3, 1059), Ok(()));
    assert_eq!(contribute(&mut b, 2, 1059), Ok(()));
    let pa = claim_round(&mut a, 1060, 10).unwrap();
    let pb = claim_round(&mut b, 9999, 150).unwrap();
    assert_eq!(pa.recipient, 1);
    assert_eq!(pb.recipient, 1);
    assert_eq!(contribute(&mut a, 2, 1100), Ok(()));
    assert_eq!(contribute(&mut b, 2, 10030), Ok(()));
    assert_eq!(claim_round(&mut a, 1120, 10).unwrap().recipient, 2);
    assert_eq!(claim_round(&mut b, 10059, 0).unwrap().recipient, 2);
}

#[test]
fn space_formula() {
    assert_eq!(Chama::space(&Vec::new(), 2), 218);
    assert_eq!(Chama::space(&b"abcde".to_vec(), 20), 817);
    assert_eq!(Chama::space(&vec![0u8; 32], 10), 514);
}
