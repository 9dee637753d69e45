//! Laws of the group state machine that relate several operations or many
//! successive calls, stated and proved over the same spec functions the
//! operations' contracts use.

use vstd::prelude::*;
use crate::chama::{Chama, round_recipient, rounds_after_claim};

verus! {

/// Activation is irreversible. A well-formed group is active exactly when it
/// is full, and no operation removes members or changes the capacity; so from
/// any active well-formed state, every later well-formed state whose member
/// count has not shrunk (which every operation guarantees) is still active.
pub proof fn lemma_activation_irreversible(pre: Chama, post: Chama)
    requires
        pre.wf(),
        post.wf(),
        pre.is_active,
        post.max_members == pre.max_members,
        post.member_count >= pre.member_count,
    ensures
        post.is_active,
{
}

/// The recipient schedule is a function of the member list and the round
/// index alone: two groups with the same membership and capacity pay round
/// `r` to the same identity, whatever else (time, escrow, flags, callers)
/// differs between them.
pub proof fn lemma_recipient_deterministic(c1: Chama, c2: Chama, r: u32)
    requires
        c1.members@ == c2.members@,
        c1.max_members == c2.max_members,
        c1.max_members > 0,
    ensures
        round_recipient(c1, r) == round_recipient(c2, r),
{
}

/// The round bookkeeping after `k` successive successful claims, starting
/// from `(round, total, claimed)` in a group of capacity `max`.
pub open spec fn rounds_after_claims(
    round: u32,
    total: u32,
    claimed: Seq<bool>,
    max: u8,
    k: nat,
) -> (u32, u32, Seq<bool>)
    decreases k,
{
    if k == 0 {
        (round, total, claimed)
    } else {
        let prev = rounds_after_claims(round, total, claimed, max, (k - 1) as nat);
        rounds_after_claim(prev.0, prev.1, prev.2, max)
    }
}

/// Part-way through a cycle that started fresh (round 0, no slot paid),
/// after `k < max` successful claims the round index is `k`, no cycle has
/// completed, and exactly slots `0..k` are flagged paid.
pub proof fn lemma_cycle_progress(total: u32, claimed: Seq<bool>, max: u8, k: nat)
    requires
        2 <= max,
        claimed.len() == max as int,
        forall|i: int| 0 <= i < claimed.len() ==> !claimed[i],
        k < max as nat,
    ensures
        ({
            let s = rounds_after_claims(0u32, total, claimed, max, k);
            &&& s.0 == k
            &&& s.1 == total
            &&& s.2.len() == max as int
            &&& forall|i: int| 0 <= i < max as int ==> (s.2[i] <==> i < k)
        }),
    decreases k,
{
    if k > 0 {
        lemma_cycle_progress(total, claimed, max, (k - 1) as nat);
    }
}

/// One full cycle: starting fresh (round 0, no slot paid), after exactly
/// `max` successful claims the completed-cycle count has grown by one, the
/// round index is back at 0, and every claim flag is false again.
pub proof fn lemma_full_cycle(total: u32, claimed: Seq<bool>, max: u8)
    requires
        2 <= max,
        claimed.len() == max as int,
        forall|i: int| 0 <= i < claimed.len() ==> !claimed[i],
        total < u32::MAX,
    ensures
        ({
            let s = rounds_after_claims(0u32, total, claimed, max, max as nat);
            &&& s.0 == 0
            &&& s.1 == total + 1
            &&& s.2.len() == max as int
            &&& forall|i: int| 0 <= i < max as int ==> !s.2[i]
        }),
{
    lemma_cycle_progress(total, claimed, max, (max - 1) as nat);
}

} // verus!
