use vstd::prelude::*;

use crate::config::ResolverConfig;
use crate::error::ResolverError;
use crate::key::Key;
use crate::slash_request::{lifecycle_step, SlashRequest, SlashStatus};
use crate::slash_request_list::{
    active_slot, allocatable, chosen_slot_ok, entry_matches, has_match, lemma_active_slot,
    lifecycle_step_or_reuse, resolved_entry, SlashRequestList,
};

verus! {

/// The proposed slash amount, computed with checked arithmetic from the
/// policy inputs: the share `numerator / denominator` of the stake not yet
/// slashed. Each arithmetic hazard fails with its own error, in this
/// order: underflow, division by zero, overflow.
pub open spec fn spec_slash_amount(
    stake: u64,
    already_slashed: u64,
    numerator: u64,
    denominator: u64,
) -> Result<u64, ResolverError> {
    if already_slashed > stake {
        Err(ResolverError::ArithmeticUnderflow)
    } else if denominator == 0 {
        Err(ResolverError::DivisionByZero)
    } else if (stake - already_slashed) * numerator > u64::MAX {
        Err(ResolverError::ArithmeticOverflow)
    } else {
        Ok((((stake - already_slashed) * numerator) / (denominator as int)) as u64)
    }
}

/// The amount-computation policy: never wraps, never truncates; any
/// overflow, underflow or division by zero is reported instead.
pub fn compute_slash_amount(
    stake: u64,
    already_slashed: u64,
    numerator: u64,
    denominator: u64,
) -> (r: Result<u64, ResolverError>)
    ensures
        r == spec_slash_amount(stake, already_slashed, numerator, denominator),
{
    let remaining = match stake.checked_sub(already_slashed) {
        Some(v) => v,
        None => {
            return Err(ResolverError::ArithmeticUnderflow);
        }
    };
    if denominator == 0 {
        return Err(ResolverError::DivisionByZero);
    }
    let product = match remaining.checked_mul(numerator) {
        Some(v) => v,
        None => {
            return Err(ResolverError::ArithmeticOverflow);
        }
    };
    Ok(product / denominator)
}

/// The veto guard: a proposed slash is still contestable at `now`.
pub open spec fn veto_window_open(e: SlashRequest, now: u64) -> bool {
    now < e.veto_deadline
}

/// The execute guard: a proposed slash has outlived its veto window.
pub open spec fn veto_window_closed(e: SlashRequest, now: u64) -> bool {
    now >= e.veto_deadline
}

/// The freshly written proposal: targets, amount and proposal time set, the
/// deadline one veto period out, not yet resolved.
pub open spec fn is_new_proposal(
    e: SlashRequest,
    op: Seq<u8>,
    vault: Seq<u8>,
    amount: u64,
    now: u64,
    veto_period: u64,
) -> bool {
    &&& e.status is Proposed
    &&& e.target_operator@ == op
    &&& e.target_vault@ == vault
    &&& e.requested_amount == amount
    &&& e.proposed_at == now
    &&& e.veto_deadline == now + veto_period
    &&& e.resolved_at == 0
}

/// The decision `request_slash` makes, in check order: network match,
/// no active proposal for the pair, amount arithmetic, deadline
/// arithmetic, and finally slot availability. `Ok` carries the amount.
pub open spec fn spec_request_outcome(
    config: ResolverConfig,
    s: Seq<SlashRequest>,
    list_ncn: Seq<u8>,
    ncn: Seq<u8>,
    op: Seq<u8>,
    vault: Seq<u8>,
    stake: u64,
    already_slashed: u64,
    numerator: u64,
    denominator: u64,
    now: u64,
) -> Result<u64, ResolverError> {
    if list_ncn != ncn {
        Err(ResolverError::SlashProposalResolverInvalid)
    } else if has_match(s, op, vault, SlashStatus::Proposed) {
        Err(ResolverError::SlashProposalInvalid)
    } else {
        match spec_slash_amount(stake, already_slashed, numerator, denominator) {
            Err(e) => Err(e),
            Ok(amount) => {
                if now + config.veto_period > u64::MAX {
                    Err(ResolverError::ArithmeticOverflow)
                } else if !(exists|k: int|
                    0 <= k < s.len() && allocatable(
                        #[trigger] s[k],
                        now,
                        config.delete_period,
                    )) {
                    Err(ResolverError::ListFull)
                } else {
                    Ok(amount)
                }
            }
        }
    }
}

/// Proposes a slash of the pair's collateral: validates the network,
/// rejects a second active proposal for the same (operator, vault) pair,
/// computes the amount with checked arithmetic, and writes a Proposed
/// entry with deadline `now + veto_period` into the first eligible slot.
/// Any failure leaves the list untouched.
pub fn request_slash(
    config: &ResolverConfig,
    list: &mut SlashRequestList,
    ncn: &Key,
    target_operator: &Key,
    target_vault: &Key,
    stake: u64,
    already_slashed: u64,
    numerator: u64,
    denominator: u64,
    now: u64,
) -> (r: Result<usize, ResolverError>)
    requires
        old(list).wf(),
    ensures
        final(list).wf(),
        final(list).ncn == old(list).ncn,
        final(list).bump == old(list).bump,
        forall|k: int|
            0 <= k < 32 ==> lifecycle_step_or_reuse(
                #[trigger] old(list).list@[k],
                final(list).list@[k],
                now,
                config.delete_period,
            ),
        match r {
            Ok(i) => {
                &&& i < 32
                &&& spec_request_outcome(
                    *config,
                    old(list).list@,
                    old(list).ncn@,
                    ncn@,
                    target_operator@,
                    target_vault@,
                    stake,
                    already_slashed,
                    numerator,
                    denominator,
                    now,
                ) matches Ok(amount)
                    && is_new_proposal(
                    final(list).list@[i as int],
                    target_operator@,
                    target_vault@,
                    amount,
                    now,
                    config.veto_period,
                )
                &&& chosen_slot_ok(old(list).list@, i as int, now, config.delete_period)
                &&& forall|k: int|
                    0 <= k < 32 && k != i ==> final(list).list@[k] == old(list).list@[k]
            },
            Err(e) => {
                &&& Err::<u64, ResolverError>(e) == spec_request_outcome(
                    *config,
                    old(list).list@,
                    old(list).ncn@,
                    ncn@,
                    target_operator@,
                    target_vault@,
                    stake,
                    already_slashed,
                    numerator,
                    denominator,
                    now,
                )
                &&& final(list).list@ == old(list).list@
            },
        },
{
    if !list.ncn.eq_bytes(ncn) {
        return Err(ResolverError::SlashProposalResolverInvalid);
    }
    match list.find(target_operator, target_vault, SlashStatus::Proposed) {
        Some(_) => {
            return Err(ResolverError::SlashProposalInvalid);
        }
        None => {}
    }
    let amount = match compute_slash_amount(stake, already_slashed, numerator, denominator) {
        Ok(a) => a,
        Err(e) => {
            return Err(e);
        }
    };
    let veto_deadline = match now.checked_add(config.veto_period) {
        Some(d) => d,
        None => {
            return Err(ResolverError::ArithmeticOverflow);
        }
    };
    let proposal = SlashRequest {
        status: SlashStatus::Proposed,
        target_operator: *target_operator,
        target_vault: *target_vault,
        requested_amount: amount,
        proposed_at: now,
        veto_deadline,
        resolved_at: 0,
    };
    list.allocate(proposal, now, config.delete_period)
}

/// The decision `veto_slash` makes, in check order: network match, veto
/// authority (the delegate when acting as delegate, the slasher admin
/// otherwise), an active proposal for the pair, and the veto window still
/// being open.
pub open spec fn spec_veto_outcome(
    config: ResolverConfig,
    s: Seq<SlashRequest>,
    list_ncn: Seq<u8>,
    ncn: Seq<u8>,
    caller: Seq<u8>,
    as_delegate: bool,
    op: Seq<u8>,
    vault: Seq<u8>,
    now: u64,
) -> Result<(), ResolverError> {
    if list_ncn != ncn {
        Err(ResolverError::SlashProposalResolverInvalid)
    } else if as_delegate && caller != config.slasher_delegate_admin@ {
        Err(ResolverError::SlasherDelegateAdminInvalid)
    } else if !as_delegate && caller != config.slasher_admin@ {
        Err(ResolverError::SlasherAdminInvalid)
    } else if has_match(s, op, vault, SlashStatus::Proposed) {
        if veto_window_open(s[active_slot(s, op, vault)], now) {
            Ok(())
        } else {
            Err(ResolverError::SlashProposalVetoPeriodEnded)
        }
    } else if has_match(s, op, vault, SlashStatus::Completed) {
        Err(ResolverError::SlashProposalCompleted)
    } else {
        Err(ResolverError::SlashProposalInvalid)
    }
}

/// Cancels the pair's active slash proposal. Only the configured veto
/// authorities may do so, and only while the veto window is open; the
/// vetoed slot forfeits its amount and awaits reclamation.
pub fn veto_slash(
    config: &ResolverConfig,
    list: &mut SlashRequestList,
    ncn: &Key,
    caller: &Key,
    as_delegate: bool,
    target_operator: &Key,
    target_vault: &Key,
    now: u64,
) -> (r: Result<(), ResolverError>)
    requires
        old(list).wf(),
    ensures
        final(list).wf(),
        final(list).ncn == old(list).ncn,
        final(list).bump == old(list).bump,
        forall|k: int|
            0 <= k < 32 ==> lifecycle_step(
                #[trigger] old(list).list@[k],
                final(list).list@[k],
            ),
        match r {
            Ok(_) => spec_veto_outcome(
                *config,
                old(list).list@,
                old(list).ncn@,
                ncn@,
                caller@,
                as_delegate,
                target_operator@,
                target_vault@,
                now,
            ) is Ok,
            Err(e) => Err::<(), ResolverError>(e) == spec_veto_outcome(
                *config,
                old(list).list@,
                old(list).ncn@,
                ncn@,
                caller@,
                as_delegate,
                target_operator@,
                target_vault@,
                now,
            ),
        },
        r is Ok ==> exists|i: int|
            0 <= i < 32 && entry_matches(
                #[trigger] old(list).list@[i],
                target_operator@,
                target_vault@,
                SlashStatus::Proposed,
            ) && final(list).list@ == old(list).list@.update(
                i,
                resolved_entry(old(list).list@[i], SlashStatus::Vetoed, now),
            ),
        r is Err ==> final(list).list@ == old(list).list@,
{
    if !list.ncn.eq_bytes(ncn) {
        return Err(ResolverError::SlashProposalResolverInvalid);
    }
    if as_delegate {
        if !caller.eq_bytes(&config.slasher_delegate_admin) {
            return Err(ResolverError::SlasherDelegateAdminInvalid);
        }
    } else {
        if !caller.eq_bytes(&config.slasher_admin) {
            return Err(ResolverError::SlasherAdminInvalid);
        }
    }
    match list.find(target_operator, target_vault, SlashStatus::Proposed) {
        Some(i) => {
            proof {
                assert(entry_matches(
                    list.list@[i as int],
                    target_operator@,
                    target_vault@,
                    SlashStatus::Proposed,
                ));
                assert(has_match(
                    list.list@,
                    target_operator@,
                    target_vault@,
                    SlashStatus::Proposed,
                ));
                lemma_active_slot(
                    list.list@,
                    target_operator@,
                    target_vault@,
                    i as int,
                );
            }
            let guard_ok = now < list.list[i].veto_deadline;
            list.transition(
                i,
                SlashStatus::Proposed,
                SlashStatus::Vetoed,
                guard_ok,
                ResolverError::SlashProposalVetoPeriodEnded,
                now,
            )
        }
        None => {
            match list.find(target_operator, target_vault, SlashStatus::Completed) {
                Some(j) => {
                    proof {
                        assert(entry_matches(
                            list.list@[j as int],
                            target_operator@,
                            target_vault@,
                            SlashStatus::Completed,
                        ));
                    }
                    Err(ResolverError::SlashProposalCompleted)
                }
                None => Err(ResolverError::SlashProposalInvalid),
            }
        }
    }
}

/// The decision `execute_slash` makes: network match, an active proposal
/// for the pair, and the veto window having closed. Execution needs no
/// caller role: once a proposal has survived its veto window anyone may
/// finalize it.
pub open spec fn spec_execute_outcome(
    s: Seq<SlashRequest>,
    list_ncn: Seq<u8>,
    ncn: Seq<u8>,
    op: Seq<u8>,
    vault: Seq<u8>,
    now: u64,
) -> Result<(), ResolverError> {
    if list_ncn != ncn {
        Err(ResolverError::SlashProposalResolverInvalid)
    } else if has_match(s, op, vault, SlashStatus::Proposed) {
        if veto_window_closed(s[active_slot(s, op, vault)], now) {
            Ok(())
        } else {
            Err(ResolverError::SlashProposalVetoPeriodNotEnded)
        }
    } else if has_match(s, op, vault, SlashStatus::Completed) {
        Err(ResolverError::SlashProposalCompleted)
    } else {
        Err(ResolverError::SlashProposalInvalid)
    }
}

/// Finalizes the pair's slash proposal once its veto window has closed,
/// marking the slot Completed and returning the `(operator, vault,
/// amount)` triple to be applied outward to the stake ledger. The state
/// machine reaches Completed at most once per proposal, so the outward
/// application happens at most once.
pub fn execute_slash(
    config: &ResolverConfig,
    list: &mut SlashRequestList,
    ncn: &Key,
    target_operator: &Key,
    target_vault: &Key,
    now: u64,
) -> (r: Result<(Key, Key, u64), ResolverError>)
    requires
        old(list).wf(),
    ensures
        final(list).wf(),
        final(list).ncn == old(list).ncn,
        final(list).bump == old(list).bump,
        forall|k: int|
            0 <= k < 32 ==> lifecycle_step(
                #[trigger] old(list).list@[k],
                final(list).list@[k],
            ),
        match r {
            Ok(t) => {
                &&& spec_execute_outcome(
                    old(list).list@,
                    old(list).ncn@,
                    ncn@,
                    target_operator@,
                    target_vault@,
                    now,
                ) is Ok
                &&& t.0@ == target_operator@
                &&& t.1@ == target_vault@
                &&& exists|i: int|
                    0 <= i < 32 && entry_matches(
                        #[trigger] old(list).list@[i],
                        target_operator@,
                        target_vault@,
                        SlashStatus::Proposed,
                    ) && t.2 == old(list).list@[i].requested_amount
                        && final(list).list@ == old(list).list@.update(
                        i,
                        resolved_entry(old(list).list@[i], SlashStatus::Completed, now),
                    )
            },
            Err(e) => {
                &&& Err::<(), ResolverError>(e) == spec_execute_outcome(
                    old(list).list@,
                    old(list).ncn@,
                    ncn@,
                    target_operator@,
                    target_vault@,
                    now,
                )
                &&& final(list).list@ == old(list).list@
            },
        },
{
    if !list.ncn.eq_bytes(ncn) {
        return Err(ResolverError::SlashProposalResolverInvalid);
    }
    match list.find(target_operator, target_vault, SlashStatus::Proposed) {
        Some(i) => {
            proof {
                lemma_active_slot(
                    list.list@,
                    target_operator@,
                    target_vault@,
                    i as int,
                );
            }
            let entry = list.list[i];
            let guard_ok = now >= entry.veto_deadline;
            match list.transition(
                i,
                SlashStatus::Proposed,
                SlashStatus::Completed,
                guard_ok,
                ResolverError::SlashProposalVetoPeriodNotEnded,
                now,
            ) {
                Ok(_) => Ok((*target_operator, *target_vault, entry.requested_amount)),
                Err(e) => Err(e),
            }
        }
        None => {
            match list.find(target_operator, target_vault, SlashStatus::Completed) {
                Some(j) => {
                    proof {
                        assert(entry_matches(
                            list.list@[j as int],
                            target_operator@,
                            target_vault@,
                            SlashStatus::Completed,
                        ));
                    }
                    Err(ResolverError::SlashProposalCompleted)
                }
                None => Err(ResolverError::SlashProposalInvalid),
            }
        }
    }
}

/// The decision `execute_instant_slash` makes: network match, the
/// instant-slasher role, and an active proposal for the pair. The veto
/// deadline is deliberately irrelevant.
pub open spec fn spec_instant_outcome(
    config: ResolverConfig,
    s: Seq<SlashRequest>,
    list_ncn: Seq<u8>,
    ncn: Seq<u8>,
    caller: Seq<u8>,
    op: Seq<u8>,
    vault: Seq<u8>,
) -> Result<(), ResolverError> {
    if list_ncn != ncn {
        Err(ResolverError::SlashProposalResolverInvalid)
    } else if caller != config.instant_slasher@ {
        Err(ResolverError::SlasherAdminInvalid)
    } else if has_match(s, op, vault, SlashStatus::Proposed) {
        Ok(())
    } else if has_match(s, op, vault, SlashStatus::Completed) {
        Err(ResolverError::SlashProposalCompleted)
    } else {
        Err(ResolverError::SlashProposalInvalid)
    }
}

/// Finalizes the pair's slash proposal immediately, bypassing the veto
/// window. Restricted to the separately configured, maximally trusted
/// instant slasher; callers accept that this trades contestability for
/// speed.
pub fn execute_instant_slash(
    config: &ResolverConfig,
    list: &mut SlashRequestList,
    ncn: &Key,
    caller: &Key,
    target_operator: &Key,
    target_vault: &Key,
    now: u64,
) -> (r: Result<(Key, Key, u64), ResolverError>)
    requires
        old(list).wf(),
    ensures
        final(list).wf(),
        final(list).ncn == old(list).ncn,
        final(list).bump == old(list).bump,
        forall|k: int|
            0 <= k < 32 ==> lifecycle_step(
                #[trigger] old(list).list@[k],
                final(list).list@[k],
            ),
        match r {
            Ok(t) => {
                &&& spec_instant_outcome(
                    *config,
                    old(list).list@,
                    old(list).ncn@,
                    ncn@,
                    caller@,
                    target_operator@,
                    target_vault@,
                ) is Ok
                &&& t.0@ == target_operator@
                &&& t.1@ == target_vault@
                &&& exists|i: int|
                    0 <= i < 32 && entry_matches(
                        #[trigger] old(list).list@[i],
                        target_operator@,
                        target_vault@,
                        SlashStatus::Proposed,
                    ) && t.2 == old(list).list@[i].requested_amount
                        && final(list).list@ == old(list).list@.update(
                        i,
                        resolved_entry(old(list).list@[i], SlashStatus::Completed, now),
                    )
            },
            Err(e) => {
                &&& Err::<(), ResolverError>(e) == spec_instant_outcome(
                    *config,
                    old(list).list@,
                    old(list).ncn@,
                    ncn@,
                    caller@,
                    target_operator@,
                    target_vault@,
                )
                &&& final(list).list@ == old(list).list@
            },
        },
{
    if !list.ncn.eq_bytes(ncn) {
        return Err(ResolverError::SlashProposalResolverInvalid);
    }
    if !caller.eq_bytes(&config.instant_slasher) {
        return Err(ResolverError::SlasherAdminInvalid);
    }
    match list.find(target_operator, target_vault, SlashStatus::Proposed) {
        Some(i) => {
            let entry = list.list[i];
            match list.transition(
                i,
                SlashStatus::Proposed,
                SlashStatus::Completed,
                true,
                ResolverError::SlashProposalInvalid,
                now,
            ) {
                Ok(_) => Ok((*target_operator, *target_vault, entry.requested_amount)),
                Err(e) => Err(e),
            }
        }
        None => {
            match list.find(target_operator, target_vault, SlashStatus::Completed) {
                Some(j) => {
                    proof {
                        assert(entry_matches(
                            list.list@[j as int],
                            target_operator@,
                            target_vault@,
                            SlashStatus::Completed,
                        ));
                    }
                    Err(ResolverError::SlashProposalCompleted)
                }
                None => Err(ResolverError::SlashProposalInvalid),
            }
        }
    }
}

/// The decision `reclaim` makes: network match, a resolved slot at the
/// index, and the delete period fully elapsed.
pub open spec fn spec_reclaim_outcome(
    config: ResolverConfig,
    s: Seq<SlashRequest>,
    list_ncn: Seq<u8>,
    ncn: Seq<u8>,
    index: int,
    now: u64,
) -> Result<(), ResolverError> {
    if list_ncn != ncn {
        Err(ResolverError::SlashProposalResolverInvalid)
    } else if !(0 <= index < s.len()) {
        Err(ResolverError::SlashProposalInvalid)
    } else if !(s[index].status is Vetoed || s[index].status is Completed) {
        Err(ResolverError::SlashProposalInvalid)
    } else if now < s[index].resolved_at + config.delete_period {
        Err(ResolverError::SlashProposalDeletePeriodNotEnded)
    } else {
        Ok(())
    }
}

/// Maintenance: resets a resolved slot back to Empty once its delete
/// period has elapsed, making it allocatable again — never before.
pub fn reclaim(
    config: &ResolverConfig,
    list: &mut SlashRequestList,
    ncn: &Key,
    index: usize,
    now: u64,
) -> (r: Result<(), ResolverError>)
    requires
        old(list).wf(),
    ensures
        final(list).wf(),
        final(list).ncn == old(list).ncn,
        final(list).bump == old(list).bump,
        forall|k: int|
            0 <= k < 32 ==> lifecycle_step(
                #[trigger] old(list).list@[k],
                final(list).list@[k],
            ),
        r == spec_reclaim_outcome(
            *config,
            old(list).list@,
            old(list).ncn@,
            ncn@,
            index as int,
            now,
        ),
        r is Ok ==> final(list).list@[index as int].status is Empty && forall|k: int|
            0 <= k < 32 && k != index ==> final(list).list@[k] == old(list).list@[k],
        r is Err ==> final(list).list@ == old(list).list@,
{
    if !list.ncn.eq_bytes(ncn) {
        return Err(ResolverError::SlashProposalResolverInvalid);
    }
    if index >= 32 {
        return Err(ResolverError::SlashProposalInvalid);
    }
    let e = list.list[index];
    if !(e.status == SlashStatus::Vetoed || e.status == SlashStatus::Completed) {
        return Err(ResolverError::SlashProposalInvalid);
    }
    if now < e.resolved_at || now - e.resolved_at < config.delete_period {
        return Err(ResolverError::SlashProposalDeletePeriodNotEnded);
    }
    list.clear_slot(index);
    Ok(())
}

} // verus!
