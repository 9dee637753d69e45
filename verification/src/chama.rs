//! The group state machine: creation, membership admission, epoch timing,
//! contribution collection into the escrow balance, and round-robin payout.

use vstd::prelude::*;

verus! {

/// Everything that can go wrong with an operation on a group. Every failure
/// is detected before any state changes; a rejected operation leaves the
/// group exactly as it was.
#[derive(Clone, Copy, Debug, PartialEq, Eq, Structural)]
pub enum ChamaError {
    /// The display name exceeds 32 bytes.
    NameTooLong,
    /// The per-epoch contribution amount is zero.
    InvalidContributionAmount,
    /// The group size is outside [2, 20].
    InvalidMaxMembers,
    /// The epoch period is shorter than 60 time units.
    EpochTooShort,
    /// The group already holds `max_members` members.
    ChamaFull,
    /// The candidate is already a member.
    MemberAlreadyJoined,
    /// The group is still forming: not all members have joined.
    ChamaNotActive,
    /// The identity is not a member of this group.
    NotAMember,
    /// The contribution window of the current epoch has closed.
    EpochEnded,
    /// The current epoch has not ended yet, so no payout is due.
    EpochNotEnded,
    /// The current round's slot was already paid this cycle.
    MemberAlreadyClaimed,
    /// The group already left the forming phase.
    ChamaAlreadyActive,
    /// The escrow holds nothing above the reserve floor.
    InsufficientFunds,
}

/// One rotating-savings group.
///
/// `members` and `member_claimed` are parallel sequences of length
/// `member_count`: `members` in insertion order defines the round order, and
/// `member_claimed[i]` says whether slot `i` has been paid in the current
/// cycle. `escrow_balance` is the pooled balance attributable to the group,
/// physically held by the external ledger but owned, in this model, by the
/// group itself.
#[derive(Debug)]
pub struct Chama {
    /// Identity of the creator; provenance only, no operational privilege.
    pub admin: u64,
    /// Display label, at most 32 bytes.
    pub name: Vec<u8>,
    /// Positive amount each member transfers per epoch.
    pub contribution_amount: u64,
    /// Positive epoch length, at least 60 time units.
    pub epoch_period: i64,
    /// Fixed group size in [2, 20]; also the number of rounds per cycle.
    pub max_members: u8,
    /// Number of admitted members, at most `max_members`.
    pub member_count: u8,
    /// Index in [0, max_members) of the next round to be disbursed.
    pub current_round: u32,
    /// Number of full cycles finished; never decreases.
    pub total_rounds_completed: u32,
    /// Timestamp after which the current round may be claimed; 0 while forming.
    pub epoch_end_time: i64,
    /// True once `member_count` reached `max_members`; never reverts.
    pub is_active: bool,
    /// Member identities in insertion order, no duplicates.
    pub members: Vec<u64>,
    /// One payout flag per member slot for the current cycle.
    pub member_claimed: Vec<bool>,
    /// Pooled funds attributable to this group.
    pub escrow_balance: u64,
}

/// The payout instruction a successful claim hands back to the caller, to be
/// carried out against the external ledger: move `amount` from the group's
/// escrow to `recipient`.
#[derive(Clone, Copy, Debug, PartialEq, Eq, Structural)]
pub struct Payout {
    pub recipient: u64,
    pub amount: u64,
}

/// No identity occurs twice.
pub open spec fn no_duplicates(s: Seq<u64>) -> bool {
    forall|i: int, j: int| 0 <= i < j < s.len() ==> s[i] != s[j]
}

impl Chama {
    /// Well-formedness: holds after creation and is preserved by every
    /// operation. Ties activation to capacity: a group is active exactly when
    /// full, which is what makes activation irreversible (members are never
    /// removed).
    pub open spec fn wf(self) -> bool {
        &&& self.name@.len() <= 32
        &&& self.contribution_amount > 0
        &&& self.epoch_period >= 60
        &&& 2 <= self.max_members <= 20
        &&& 1 <= self.member_count <= self.max_members
        &&& self.members@.len() == self.member_count as int
        &&& self.member_claimed@.len() == self.member_count as int
        &&& no_duplicates(self.members@)
        &&& self.current_round < self.max_members as u32
        &&& (self.is_active <==> self.member_count == self.max_members)
        &&& (!self.is_active ==> self.current_round == 0
            && self.total_rounds_completed == 0
            && self.epoch_end_time == 0)
    }

    /// Whether `id` belongs to the group.
    pub open spec fn is_member(self, id: u64) -> bool {
        self.members@.contains(id)
    }

    /// Bytes a stored group record occupies, for a given name and capacity:
    /// a fixed header and footer around the name plus, per member slot, a
    /// 32-byte identity and a 1-byte claim flag. Amounts to
    /// `152 + name.len() + 33 * max_members`.
    pub fn space(name: &Vec<u8>, max_members: u8) -> (r: usize)
        requires
            name@.len() + 8567 <= usize::MAX,
        ensures
            r == 152 + name@.len() + 33 * (max_members as int),
    {
        8  // record tag
        + 32  // admin
        + 4 + name.len()  // name with length prefix
        + 8  // contribution_amount
        + 8  // epoch_period
        + 1  // max_members
        + 1  // member_count
        + 4  // current_round
        + 4  // total_rounds_completed
        + 8  // epoch_end_time
        + 1  // is_active
        + 4 + 32 * (max_members as usize)  // members list
        + 4 + 1 * (max_members as usize)  // member_claimed list
        + 1  // address seed byte of the stored record
        + 64  // padding for safety
    }
}

/// The recipient of round `r` for a fixed membership: the member at slot
/// `r mod max_members`. A function of the member list and the round index
/// alone, so the schedule cannot depend on who calls or in what order.
pub open spec fn round_recipient(c: Chama, r: u32) -> u64 {
    c.members@[(r as int) % (c.max_members as int)]
}

/// How one successful claim advances the round bookkeeping
/// `(current_round, total_rounds_completed, member_claimed)`: within a cycle
/// the slot just paid is flagged and the round index steps; the claim that
/// pays the last slot instead closes the cycle, wrapping the index to 0,
/// counting one more completed cycle, and clearing every flag.
pub open spec fn rounds_after_claim(
    round: u32,
    total: u32,
    claimed: Seq<bool>,
    max: u8,
) -> (u32, u32, Seq<bool>) {
    if round + 1 < max as u32 {
        ((round + 1) as u32, total, claimed.update(round as int, true))
    } else {
        (0u32, (total + 1) as u32, Seq::new(max as nat, |i: int| false))
    }
}

/// A fresh all-false claim-flag list of length `n`.
fn false_flags(n: usize) -> (v: Vec<bool>)
    ensures
        v@ == Seq::new(n as nat, |i: int| false),
{
    let mut v: Vec<bool> = Vec::new();
    let mut i: usize = 0;
    while i < n
        invariant
            i <= n,
            v@.len() == i as int,
            forall|j: int| 0 <= j < i ==> !v@[j],
        decreases n - i,
    {
        v.push(false);
        i += 1;
    }
    assert(v@ =~= Seq::new(n as nat, |i: int| false));
    v
}

/// Linear membership test over the ordered member list.
fn contains_id(members: &Vec<u64>, id: u64) -> (r: bool)
    ensures
        r == members@.contains(id),
{
    let mut i: usize = 0;
    while i < members.len()
        invariant
            i <= members@.len(),
            forall|j: int| 0 <= j < i ==> members@[j] != id,
        decreases members@.len() - i,
    {
        if members[i] == id {
            assert(members@[i as int] == id);
            return true;
        }
        i += 1;
    }
    false
}

/// Create a new group in the forming state, with the creator as its sole
/// member and all counters zeroed. No funds move.
pub fn create_chama(
    name: Vec<u8>,
    contribution_amount: u64,
    epoch_period: i64,
    max_members: u8,
    creator: u64,
) -> (r: Result<Chama, ChamaError>)
    ensures
        r is Ok <==> (name@.len() <= 32 && contribution_amount > 0
            && 2 <= max_members <= 20 && epoch_period >= 60),
        r == Err::<Chama, ChamaError>(ChamaError::NameTooLong)
            <==> name@.len() > 32,
        r == Err::<Chama, ChamaError>(ChamaError::InvalidContributionAmount)
            <==> (name@.len() <= 32 && contribution_amount == 0),
        r == Err::<Chama, ChamaError>(ChamaError::InvalidMaxMembers)
            <==> (name@.len() <= 32 && contribution_amount > 0
                && !(2 <= max_members <= 20)),
        r == Err::<Chama, ChamaError>(ChamaError::EpochTooShort)
            <==> (name@.len() <= 32 && contribution_amount > 0
                && 2 <= max_members <= 20 && epoch_period < 60),
        r matches Ok(c) ==> {
            &&& c.wf()
            &&& c.admin == creator
            &&& c.name@ == name@
            &&& c.contribution_amount == contribution_amount
            &&& c.epoch_period == epoch_period
            &&& c.max_members == max_members
            &&& c.member_count == 1
            &&& c.members@ =~= seq![creator]
            &&& c.member_claimed@ =~= seq![false]
            &&& c.current_round == 0
            &&& c.total_rounds_completed == 0
            &&& c.epoch_end_time == 0
            &&& !c.is_active
            &&& c.escrow_balance == 0
        },
{
    if name.len() > 32 {
        return Err(ChamaError::NameTooLong);
    }
    if contribution_amount == 0 {
        return Err(ChamaError::InvalidContributionAmount);
    }
    if !(max_members >= 2 && max_members <= 20) {
        return Err(ChamaError::InvalidMaxMembers);
    }
    if epoch_period < 60 {
        return Err(ChamaError::EpochTooShort);
    }
    let mut members: Vec<u64> = Vec::new();
    members.push(creator);
    let mut member_claimed: Vec<bool> = Vec::new();
    member_claimed.push(false);
    Ok(Chama {
        admin: creator,
        name,
        contribution_amount,
        epoch_period,
        max_members,
        member_count: 1,
        current_round: 0,
        total_rounds_completed: 0,
        epoch_end_time: 0,
        is_active: false,
        members,
        member_claimed,
        escrow_balance: 0,
    })
}

/// Admit `candidate` into a forming group. `now` is the current time as
/// observed by the caller; it is only consulted by the admission that fills
/// the group, which activates it and sets the first epoch's deadline to
/// `now + epoch_period`.
pub fn join_chama(chama: &mut Chama, candidate: u64, now: i64) -> (r: Result<(), ChamaError>)
    requires
        old(chama).wf(),
        // The activating admission computes the first deadline; the sum must
        // fit the timestamp type.
        (old(chama).member_count + 1 == old(chama).max_members
            && !old(chama).is_member(candidate))
            ==> now + old(chama).epoch_period <= i64::MAX,
    ensures
        final(chama).wf(),
        r is Err ==> *final(chama) == *old(chama),
        r == Err::<(), ChamaError>(ChamaError::ChamaFull)
            <==> old(chama).member_count == old(chama).max_members,
        r == Err::<(), ChamaError>(ChamaError::ChamaAlreadyActive)
            <==> (old(chama).member_count < old(chama).max_members && old(chama).is_active),
        r == Err::<(), ChamaError>(ChamaError::MemberAlreadyJoined)
            <==> (old(chama).member_count < old(chama).max_members
                && !old(chama).is_active && old(chama).is_member(candidate)),
        r is Ok <==> (old(chama).member_count < old(chama).max_members
            && !old(chama).is_member(candidate)),
        // Activation is irreversible and happens exactly when this admission
        // brings the group to capacity.
        old(chama).is_active ==> final(chama).is_active,
        r is Ok ==> {
            &&& final(chama).members@ == old(chama).members@.push(candidate)
            &&& final(chama).member_claimed@ == old(chama).member_claimed@.push(false)
            &&& final(chama).member_count == old(chama).member_count + 1
            &&& (final(chama).is_active
                <==> old(chama).member_count + 1 == old(chama).max_members)
            &&& (final(chama).is_active
                ==> final(chama).epoch_end_time == now + old(chama).epoch_period)
            &&& (!final(chama).is_active
                ==> final(chama).epoch_end_time == old(chama).epoch_end_time)
            &&& final(chama).admin == old(chama).admin
            &&& final(chama).name@ == old(chama).name@
            &&& final(chama).contribution_amount == old(chama).contribution_amount
            &&& final(chama).epoch_period == old(chama).epoch_period
            &&& final(chama).max_members == old(chama).max_members
            &&& final(chama).current_round == old(chama).current_round
            &&& final(chama).total_rounds_completed == old(chama).total_rounds_completed
            &&& final(chama).escrow_balance == old(chama).escrow_balance
        },
{
    if chama.member_count >= chama.max_members {
        return Err(ChamaError::ChamaFull);
    }
    // Below capacity a well-formed group is still forming, so this guard
    // cannot fire; it is kept as the written form of that precondition.
    if chama.is_active {
        return Err(ChamaError::ChamaAlreadyActive);
    }
    if contains_id(&chama.members, candidate) {
        return Err(ChamaError::MemberAlreadyJoined);
    }
    chama.members.push(candidate);
    chama.member_claimed.push(false);
    chama.member_count += 1;
    if chama.member_count == chama.max_members {
        chama.is_active = true;
        chama.epoch_end_time = now + chama.epoch_period;
    }
    Ok(())
}

/// Record a member's contribution for the current epoch: `contribution_amount`
/// moves from `member` into the group's escrow. The caller carries out the
/// matching ledger transfer; `now` is the current time it observed. Nothing
/// tracks who contributed: disbursement is unconditional on contribution
/// history, so a member may contribute several times or not at all.
pub fn contribute(chama: &mut Chama, member: u64, now: i64) -> (r: Result<(), ChamaError>)
    requires
        old(chama).wf(),
        // A contribution that is accepted must still fit the escrow balance.
        (old(chama).is_active && old(chama).is_member(member)
            && now < old(chama).epoch_end_time)
            ==> old(chama).escrow_balance + old(chama).contribution_amount <= u64::MAX,
    ensures
        final(chama).wf(),
        r is Err ==> *final(chama) == *old(chama),
        r == Err::<(), ChamaError>(ChamaError::ChamaNotActive)
            <==> !old(chama).is_active,
        r == Err::<(), ChamaError>(ChamaError::NotAMember)
            <==> (old(chama).is_active && !old(chama).is_member(member)),
        r == Err::<(), ChamaError>(ChamaError::EpochEnded)
            <==> (old(chama).is_active && old(chama).is_member(member)
                && now >= old(chama).epoch_end_time),
        r is Ok <==> (old(chama).is_active && old(chama).is_member(member)
            && now < old(chama).epoch_end_time),
        r is Ok ==> {
            &&& final(chama).escrow_balance
                == old(chama).escrow_balance + old(chama).contribution_amount
            &&& final(chama).admin == old(chama).admin
            &&& final(chama).name@ == old(chama).name@
            &&& final(chama).contribution_amount == old(chama).contribution_amount
            &&& final(chama).epoch_period == old(chama).epoch_period
            &&& final(chama).max_members == old(chama).max_members
            &&& final(chama).member_count == old(chama).member_count
            &&& final(chama).members@ == old(chama).members@
            &&& final(chama).member_claimed@ == old(chama).member_claimed@
            &&& final(chama).current_round == old(chama).current_round
            &&& final(chama).total_rounds_completed == old(chama).total_rounds_completed
            &&& final(chama).epoch_end_time == old(chama).epoch_end_time
            &&& final(chama).is_active == old(chama).is_active
        },
        old(chama).is_active ==> final(chama).is_active,
{
    if !chama.is_active {
        return Err(ChamaError::ChamaNotActive);
    }
    if !contains_id(&chama.members, member) {
        return Err(ChamaError::NotAMember);
    }
    if now >= chama.epoch_end_time {
        return Err(ChamaError::EpochEnded);
    }
    chama.escrow_balance = chama.escrow_balance + chama.contribution_amount;
    Ok(())
}

impl Chama {
    /// A claim is due: the group is active, the current epoch has ended, the
    /// current slot is still unpaid, and the escrow holds something above the
    /// reserve floor.
    pub open spec fn claim_allowed(self, now: i64, reserve_floor: u64) -> bool {
        &&& self.is_active
        &&& now >= self.epoch_end_time
        &&& !self.member_claimed@[self.current_round as int]
        &&& self.escrow_balance > reserve_floor
    }
}

/// Disburse the current round: pay the escrow balance above `reserve_floor`
/// to the member at slot `current_round`, flag that slot, advance the round
/// (closing the cycle when the last slot was paid), and start the next
/// epoch's clock at `now + epoch_period`. Any caller may trigger an eligible
/// claim; the recipient is derived, never chosen. The returned `Payout` is
/// the transfer the caller must carry out against the external ledger.
pub fn claim_round(chama: &mut Chama, now: i64, reserve_floor: u64) -> (r: Result<
    Payout,
    ChamaError,
>)
    requires
        old(chama).wf(),
        // A claim that goes through computes the next deadline and, when it
        // closes a cycle, one more completed cycle; both must fit their types.
        old(chama).claim_allowed(now, reserve_floor)
            ==> now + old(chama).epoch_period <= i64::MAX,
        (old(chama).claim_allowed(now, reserve_floor)
            && old(chama).current_round + 1 == old(chama).max_members)
            ==> old(chama).total_rounds_completed < u32::MAX,
    ensures
        final(chama).wf(),
        r is Err ==> *final(chama) == *old(chama),
        r == Err::<Payout, ChamaError>(ChamaError::ChamaNotActive)
            <==> !old(chama).is_active,
        r == Err::<Payout, ChamaError>(ChamaError::EpochNotEnded)
            <==> (old(chama).is_active && now < old(chama).epoch_end_time),
        r == Err::<Payout, ChamaError>(ChamaError::MemberAlreadyClaimed)
            <==> (old(chama).is_active && now >= old(chama).epoch_end_time
                && old(chama).member_claimed@[old(chama).current_round as int]),
        r == Err::<Payout, ChamaError>(ChamaError::InsufficientFunds)
            <==> (old(chama).is_active && now >= old(chama).epoch_end_time
                && !old(chama).member_claimed@[old(chama).current_round as int]
                && old(chama).escrow_balance <= reserve_floor),
        r is Ok <==> old(chama).claim_allowed(now, reserve_floor),
        old(chama).is_active ==> final(chama).is_active,
        r matches Ok(p) ==> {
            &&& p.recipient == round_recipient(*old(chama), old(chama).current_round)
            &&& p.amount == old(chama).escrow_balance - reserve_floor
            &&& p.amount > 0
            &&& final(chama).escrow_balance == reserve_floor
            &&& (final(chama).current_round, final(chama).total_rounds_completed,
                final(chama).member_claimed@) == rounds_after_claim(
                old(chama).current_round,
                old(chama).total_rounds_completed,
                old(chama).member_claimed@,
                old(chama).max_members,
            )
            &&& final(chama).epoch_end_time == now + old(chama).epoch_period
            &&& final(chama).admin == old(chama).admin
            &&& final(chama).name@ == old(chama).name@
            &&& final(chama).contribution_amount == old(chama).contribution_amount
            &&& final(chama).epoch_period == old(chama).epoch_period
            &&& final(chama).max_members == old(chama).max_members
            &&& final(chama).member_count == old(chama).member_count
            &&& final(chama).members@ == old(chama).members@
            &&& final(chama).is_active
        },
{
    if !chama.is_active {
        return Err(ChamaError::ChamaNotActive);
    }
    if now < chama.epoch_end_time {
        return Err(ChamaError::EpochNotEnded);
    }
    let slot = chama.current_round as usize;
    let recipient = chama.members[slot];
    if chama.member_claimed[slot] {
        return Err(ChamaError::MemberAlreadyClaimed);
    }
    if chama.escrow_balance <= reserve_floor {
        return Err(ChamaError::InsufficientFunds);
    }
    proof {
        vstd::arithmetic::div_mod::lemma_small_mod(
            chama.current_round as nat,
            chama.max_members as nat,
        );
    }
    let amount = chama.escrow_balance - reserve_floor;
    chama.member_claimed[slot] = true;
    chama.escrow_balance = reserve_floor;
    chama.current_round += 1;
    if chama.current_round >= chama.max_members as u32 {
        chama.total_rounds_completed += 1;
        chama.current_round = 0;
        chama.member_claimed = false_flags(chama.max_members as usize);
    }
    chama.epoch_end_time = now + chama.epoch_period;
    Ok(Payout { recipient, amount })
}

} // verus!
