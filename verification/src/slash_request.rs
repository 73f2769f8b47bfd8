use vstd::prelude::*;

use crate::key::{zero_key, Key};

verus! {

/// The state of one slot of a network's slash request list.
#[derive(Clone, Copy, Debug, PartialEq, Eq, Structural)]
pub enum SlashStatus {
    Empty,
    Proposed,
    Vetoed,
    Completed,
}

/// One proposed or resolved penalty entry, stored inline in the list.
#[derive(Clone, Copy, Debug, PartialEq, Eq)]
pub struct SlashRequest {
    pub status: SlashStatus,
    pub target_operator: Key,
    pub target_vault: Key,
    pub requested_amount: u64,
    pub proposed_at: u64,
    pub veto_deadline: u64,
    pub resolved_at: u64,
}

/// All payload fields of a slot hold their zero defaults.
pub open spec fn entry_is_cleared(e: SlashRequest) -> bool {
    &&& e.target_operator@ == zero_key()
    &&& e.target_vault@ == zero_key()
    &&& e.requested_amount == 0
    &&& e.proposed_at == 0
    &&& e.veto_deadline == 0
    &&& e.resolved_at == 0
}

/// A well-formed slot: an empty slot is fully zeroed; only a proposed or
/// completed slot carries an amount; a slot is stamped `resolved_at` only
/// once resolved; and a proposal's deadline never precedes its proposal.
pub open spec fn entry_wf(e: SlashRequest) -> bool {
    &&& e.status is Empty ==> entry_is_cleared(e)
    &&& e.status is Empty || e.status is Vetoed ==> e.requested_amount == 0
    &&& e.status is Empty || e.status is Proposed ==> e.resolved_at == 0
    &&& e.status is Proposed ==> e.proposed_at <= e.veto_deadline
}

/// One legal move of the slot state machine: stay put, propose into an
/// empty slot, resolve a proposed slot by veto or completion, or reclaim a
/// resolved slot back to empty. Nothing else is ever permitted.
pub open spec fn lifecycle_step(pre: SlashRequest, post: SlashRequest) -> bool {
    ||| post == pre
    ||| pre.status is Empty && post.status is Proposed
    ||| pre.status is Proposed && (post.status is Vetoed || post.status is Completed)
    ||| (pre.status is Vetoed || pre.status is Completed) && post.status is Empty
}

/// Runtime check of `entry_wf`, for callers outside the verified world.
pub fn entry_well_formed(e: &SlashRequest) -> (r: bool)
    ensures
        r == entry_wf(*e),
{
    let zero = Key::zeroed();
    let cleared = e.target_operator.eq_bytes(&zero) && e.target_vault.eq_bytes(&zero)
        && e.requested_amount == 0 && e.proposed_at == 0 && e.veto_deadline == 0
        && e.resolved_at == 0;
    let empty_cleared = if e.status == SlashStatus::Empty {
        cleared
    } else {
        true
    };
    let amount_ok = if e.status == SlashStatus::Empty || e.status == SlashStatus::Vetoed {
        e.requested_amount == 0
    } else {
        true
    };
    let resolved_ok = if e.status == SlashStatus::Empty || e.status == SlashStatus::Proposed {
        e.resolved_at == 0
    } else {
        true
    };
    let deadline_ok = if e.status == SlashStatus::Proposed {
        e.proposed_at <= e.veto_deadline
    } else {
        true
    };
    empty_cleared && amount_ok && resolved_ok && deadline_ok
}

impl SlashRequest {
    /// A zeroed, empty slot.
    pub fn empty() -> (r: SlashRequest)
        ensures
            r.status is Empty,
            entry_is_cleared(r),
            entry_wf(r),
    {
        SlashRequest {
            status: SlashStatus::Empty,
            target_operator: Key::zeroed(),
            target_vault: Key::zeroed(),
            requested_amount: 0,
            proposed_at: 0,
            veto_deadline: 0,
            resolved_at: 0,
        }
    }
}

} // verus!
