use vstd::prelude::*;

use crate::config::ResolverConfig;
use crate::error::ResolverError;
use crate::lifecycle::{
    spec_execute_outcome, spec_request_outcome, spec_slash_amount, spec_veto_outcome,
    veto_window_closed, veto_window_open,
};
use crate::slash_request::{lifecycle_step, SlashRequest, SlashStatus};
use crate::slash_request_list::{allocatable, entry_matches, has_match, SlashRequestList};

verus! {

/// Law: at most one slot of a well-formed list holds a Proposed entry for
/// any one (operator, vault) pair — two slots that both hold the pair's
/// active proposal are the same slot.
pub proof fn lemma_single_active_proposal(
    l: SlashRequestList,
    op: Seq<u8>,
    vault: Seq<u8>,
    i: int,
    j: int,
)
    requires
        l.wf(),
        0 <= i < 32,
        0 <= j < 32,
        entry_matches(l.list@[i], op, vault, SlashStatus::Proposed),
        entry_matches(l.list@[j], op, vault, SlashStatus::Proposed),
    ensures
        i == j,
{
    if i != j {
        assert(l.list@[i].status is Proposed && l.list@[j].status is Proposed);
        assert(false);
    }
}

/// Law: the slot state machine is monotonic. A legal step that changes a
/// slot moves it forward only: from Empty to Proposed, from Proposed to a
/// resolution, and from a resolution back to Empty — nothing else. Every
/// mutating operation of the list promises `lifecycle_step` for each slot,
/// so no operation can move a slot any other way.
pub proof fn lemma_monotonic_lifecycle(pre: SlashRequest, post: SlashRequest)
    requires
        lifecycle_step(pre, post),
        pre != post,
    ensures
        pre.status is Empty ==> post.status is Proposed,
        pre.status is Proposed ==> post.status is Vetoed || post.status is Completed,
        pre.status is Vetoed || pre.status is Completed ==> post.status is Empty,
{
}

/// Law: a proposed slot is vetoable exactly until it becomes executable.
/// At any instant exactly one of the veto guard and the execute guard
/// holds — the two windows are complementary, with no gap and no overlap.
pub proof fn lemma_veto_window_exactness(e: SlashRequest, now: u64)
    requires
        e.status is Proposed,
    ensures
        veto_window_open(e, now) <==> !veto_window_closed(e, now),
{
}

/// Law: the veto and execute operations partition time for an active
/// proposal. When the network and authority checks pass and the pair has a
/// Proposed slot, a veto succeeds exactly when an execute at the same
/// instant would report its window as not yet ended, and an execute
/// succeeds exactly when a veto at the same instant would report its
/// window as ended — no gap and no overlap.
pub proof fn lemma_veto_execute_complementary(
    config: ResolverConfig,
    l: SlashRequestList,
    ncn: Seq<u8>,
    caller: Seq<u8>,
    as_delegate: bool,
    op: Seq<u8>,
    vault: Seq<u8>,
    now: u64,
)
    requires
        l.wf(),
        l.ncn@ == ncn,
        as_delegate ==> caller == config.slasher_delegate_admin@,
        !as_delegate ==> caller == config.slasher_admin@,
        has_match(l.list@, op, vault, SlashStatus::Proposed),
    ensures
        spec_veto_outcome(config, l.list@, l.ncn@, ncn, caller, as_delegate, op, vault, now)
            is Ok <==> spec_execute_outcome(l.list@, l.ncn@, ncn, op, vault, now)
            == Err::<(), ResolverError>(ResolverError::SlashProposalVetoPeriodNotEnded),
        spec_execute_outcome(l.list@, l.ncn@, ncn, op, vault, now) is Ok
            <==> spec_veto_outcome(config, l.list@, l.ncn@, ncn, caller, as_delegate, op, vault, now)
            == Err::<(), ResolverError>(ResolverError::SlashProposalVetoPeriodEnded),
{
}

/// Law: the capacity ceiling is hard. When all 32 slots hold active
/// proposals — so none is empty and none is resolved-and-reclaimable — a
/// further request that passes every earlier check still fails with
/// `ListFull`.
pub proof fn lemma_capacity_ceiling(
    config: ResolverConfig,
    l: SlashRequestList,
    ncn: Seq<u8>,
    op: Seq<u8>,
    vault: Seq<u8>,
    stake: u64,
    already_slashed: u64,
    numerator: u64,
    denominator: u64,
    now: u64,
)
    requires
        l.wf(),
        l.ncn@ == ncn,
        forall|k: int| 0 <= k < 32 ==> (#[trigger] l.list@[k]).status is Proposed,
        !has_match(l.list@, op, vault, SlashStatus::Proposed),
        spec_slash_amount(stake, already_slashed, numerator, denominator) is Ok,
        now + config.veto_period <= u64::MAX,
    ensures
        spec_request_outcome(
            config,
            l.list@,
            l.ncn@,
            ncn,
            op,
            vault,
            stake,
            already_slashed,
            numerator,
            denominator,
            now,
        ) == Err::<u64, ResolverError>(ResolverError::ListFull),
{
    assert forall|k: int| 0 <= k < 32 implies !allocatable(
        #[trigger] l.list@[k],
        now,
        config.delete_period,
    ) by {
        assert(l.list@[k].status is Proposed);
    }
}

/// Law: a vetoed or completed slot is allocatable exactly when its delete
/// period has elapsed — `resolved_at + delete_period <= now` — and never
/// before.
pub proof fn lemma_reclamation_window(e: SlashRequest, now: u64, delete_period: u64)
    requires
        e.status is Vetoed || e.status is Completed,
    ensures
        allocatable(e, now, delete_period) <==> e.resolved_at + delete_period <= now,
{
}

} // verus!
