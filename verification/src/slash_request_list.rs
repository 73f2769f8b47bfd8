use vstd::prelude::*;

use crate::error::{RecordError, ResolverError};
use crate::key::Key;
use crate::pda::{find_pda, pda_of, spec_pda_addr};
use crate::record::{spec_validate, validate_record, RecordInfo};
use crate::slash_request::{
    entry_well_formed, entry_wf, lifecycle_step, SlashRequest, SlashStatus,
};

verus! {

/// The leading type tag of a stored slash request list record.
pub const LIST_DISCRIMINATOR: u8 = 3;

/// The capacity ceiling of a network's request list.
pub const MAX_SLASH_REQUEST: usize = 32;

/// The fixed salt naming a network's slash request list record:
/// the bytes of `slash_request_list`.
pub open spec fn list_seed() -> Seq<u8> {
    seq![
        115u8, 108u8, 97u8, 115u8, 104u8, 95u8, 114u8, 101u8, 113u8, 117u8, 101u8, 115u8,
        116u8, 95u8, 108u8, 105u8, 115u8, 116u8,
    ]
}

/// The full seed list a network's request list is derived from.
pub open spec fn spec_list_seeds(ncn: Seq<u8>) -> Seq<Seq<u8>> {
    seq![list_seed(), ncn]
}

/// A slot's (status, operator, vault) triple matches the query exactly.
pub open spec fn entry_matches(
    e: SlashRequest,
    op: Seq<u8>,
    vault: Seq<u8>,
    status: SlashStatus,
) -> bool {
    &&& e.status == status
    &&& e.target_operator@ == op
    &&& e.target_vault@ == vault
}

/// Some slot holds an entry with the given status for the pair.
pub open spec fn has_match(
    s: Seq<SlashRequest>,
    op: Seq<u8>,
    vault: Seq<u8>,
    status: SlashStatus,
) -> bool {
    exists|k: int| 0 <= k < s.len() && entry_matches(#[trigger] s[k], op, vault, status)
}

/// The slot holding the pair's active proposal, when one exists: in a
/// well-formed list it is uniquely determined.
pub open spec fn active_slot(s: Seq<SlashRequest>, op: Seq<u8>, vault: Seq<u8>) -> int {
    choose|k: int| 0 <= k < s.len() && entry_matches(#[trigger] s[k], op, vault, SlashStatus::Proposed)
}

/// In a list with at most one active proposal per pair, any slot holding
/// the pair's proposal is the `active_slot`.
pub proof fn lemma_active_slot(s: Seq<SlashRequest>, op: Seq<u8>, vault: Seq<u8>, i: int)
    requires
        single_active_proposal(s),
        0 <= i < s.len(),
        entry_matches(s[i], op, vault, SlashStatus::Proposed),
    ensures
        active_slot(s, op, vault) == i,
{
    assert(0 <= i < s.len() && entry_matches(s[i], op, vault, SlashStatus::Proposed));
    let k = active_slot(s, op, vault);
    assert(0 <= k < s.len() && entry_matches(s[k], op, vault, SlashStatus::Proposed));
    if k != i {
        assert(s[k].status is Proposed && s[i].status is Proposed);
        assert(false);
    }
}

/// At most one slot holds a Proposed entry for any (operator, vault) pair.
pub open spec fn single_active_proposal(s: Seq<SlashRequest>) -> bool {
    forall|i: int, j: int|
        0 <= i < s.len() && 0 <= j < s.len() && i != j
            && (#[trigger] s[i]).status is Proposed && (#[trigger] s[j]).status is Proposed
            ==> !(s[i].target_operator@ == s[j].target_operator@
                && s[i].target_vault@ == s[j].target_vault@)
}

/// A slot the allocator may take at time `now`: empty, or resolved with its
/// delete period fully elapsed. A resolved slot never becomes allocatable
/// before `resolved_at + delete_period`.
pub open spec fn allocatable(e: SlashRequest, now: u64, delete_period: u64) -> bool {
    ||| e.status is Empty
    ||| ((e.status is Vetoed || e.status is Completed)
        && e.resolved_at + delete_period <= now)
}

/// The allocator's deterministic tie-break: the lowest-index empty slot if
/// one exists, otherwise the lowest-index reclaimable slot.
pub open spec fn chosen_slot_ok(
    s: Seq<SlashRequest>,
    i: int,
    now: u64,
    delete_period: u64,
) -> bool {
    if exists|k: int| 0 <= k < s.len() && (#[trigger] s[k]).status is Empty {
        &&& s[i].status is Empty
        &&& forall|k: int| 0 <= k < i ==> !((#[trigger] s[k]).status is Empty)
    } else {
        &&& allocatable(s[i], now, delete_period)
        &&& forall|k: int| 0 <= k < i ==> !allocatable(#[trigger] s[k], now, delete_period)
    }
}

/// A resolved slot turning Proposed again in one instruction: the allocator
/// reclaims an eligible slot and proposes into it, two legal lifecycle
/// steps taken together. Any other move is a single legal step.
pub open spec fn lifecycle_step_or_reuse(
    pre: SlashRequest,
    post: SlashRequest,
    now: u64,
    delete_period: u64,
) -> bool {
    ||| lifecycle_step(pre, post)
    ||| ((pre.status is Vetoed || pre.status is Completed)
        && pre.resolved_at + delete_period <= now
        && post.status is Proposed)
}

/// A resolved proposal slot: status and `resolved_at` are rewritten, and a
/// veto forfeits the amount (no value leaves the system).
pub open spec fn resolved_entry(e: SlashRequest, to: SlashStatus, now: u64) -> SlashRequest {
    SlashRequest {
        status: to,
        requested_amount: if to is Vetoed {
            0
        } else {
            e.requested_amount
        },
        resolved_at: now,
        ..e
    }
}

/// The fixed-capacity, per-network container of slash requests.
#[derive(Clone, Debug, PartialEq, Eq)]
pub struct SlashRequestList {
    /// The network this list belongs to, immutable after creation.
    pub ncn: Key,
    /// Exactly 32 slots, reused indefinitely.
    pub list: Vec<SlashRequest>,
    /// The derivation bump of the list's own address.
    pub bump: u8,
}

impl SlashRequestList {
    /// Well-formedness: exactly 32 slots, each slot well-formed, and at
    /// most one Proposed entry per (operator, vault) pair.
    pub open spec fn wf(&self) -> bool {
        &&& self.list@.len() == 32
        &&& forall|k: int| 0 <= k < 32 ==> entry_wf(#[trigger] self.list@[k])
        &&& single_active_proposal(self.list@)
    }

    /// A fresh list: all 32 slots empty.
    pub fn new(ncn: Key, bump: u8) -> (r: SlashRequestList)
        ensures
            r.wf(),
            r.ncn@ == ncn@,
            r.bump == bump,
            forall|k: int| 0 <= k < 32 ==> (#[trigger] r.list@[k]).status is Empty,
    {
        let mut list: Vec<SlashRequest> = Vec::new();
        let mut i: usize = 0;
        while i < 32
            invariant
                i <= 32,
                list@.len() == i,
                forall|k: int|
                    0 <= k < i ==> (#[trigger] list@[k]).status is Empty && entry_wf(list@[k]),
            decreases 32 - i,
        {
            list.push(SlashRequest::empty());
            i = i + 1;
        }
        SlashRequestList { ncn, list, bump }
    }

    /// The seed list the record's address is derived from: the fixed salt,
    /// then the network key's bytes.
    pub fn seeds(ncn: &Key) -> (r: Vec<Vec<u8>>)
        ensures
            r.deep_view() == spec_list_seeds(ncn@),
    {
        let mut salt: Vec<u8> = Vec::new();
        salt.push(115u8);
        salt.push(108u8);
        salt.push(97u8);
        salt.push(115u8);
        salt.push(104u8);
        salt.push(95u8);
        salt.push(114u8);
        salt.push(101u8);
        salt.push(113u8);
        salt.push(117u8);
        salt.push(101u8);
        salt.push(115u8);
        salt.push(116u8);
        salt.push(95u8);
        salt.push(108u8);
        salt.push(105u8);
        salt.push(115u8);
        salt.push(116u8);
        proof {
            assert(salt@ =~= list_seed());
        }
        let mut r: Vec<Vec<u8>> = Vec::new();
        r.push(salt);
        r.push(ncn.to_vec());
        proof {
            assert(r.deep_view() =~~= spec_list_seeds(ncn@));
        }
        r
    }

    /// The deterministic address of a network's list record, with its bump
    /// and the seeds it was derived from; nothing when no bump yields a
    /// valid derived address.
    pub fn find_program_address(program_id: &Key, ncn: &Key) -> (r: Option<(Key, u8, Vec<Vec<u8>>)>)
        ensures
            match r {
                Some(p) => {
                    &&& pda_of(program_id@, spec_list_seeds(ncn@)) == Some((p.0@, p.1))
                    &&& p.2.deep_view() == spec_list_seeds(ncn@)
                },
                None => pda_of(program_id@, spec_list_seeds(ncn@)) is None,
            },
    {
        let seeds = Self::seeds(ncn);
        match find_pda(program_id, &seeds) {
            Some(p) => Some((p.0, p.1, seeds)),
            None => None,
        }
    }

    /// Validates a stored list record before it is trusted: owned by the
    /// program, initialized, writable when a mutation is intended, tagged
    /// as a list, and sitting at the address derived for this network.
    pub fn load(
        program_id: &Key,
        slash_request_list: &RecordInfo,
        ncn: &Key,
        expect_writable: bool,
    ) -> (r: Result<(), RecordError>)
        ensures
            r == spec_validate(
                *slash_request_list,
                program_id@,
                expect_writable,
                LIST_DISCRIMINATOR,
                spec_pda_addr(pda_of(program_id@, spec_list_seeds(ncn@))),
            ),
    {
        let seeds = Self::seeds(ncn);
        let derived = find_pda(program_id, &seeds);
        match &derived {
            Some(p) => validate_record(
                program_id,
                slash_request_list,
                expect_writable,
                LIST_DISCRIMINATOR,
                Some(&p.0),
            ),
            None => validate_record(
                program_id,
                slash_request_list,
                expect_writable,
                LIST_DISCRIMINATOR,
                None,
            ),
        }
    }

    /// The first slot (in index order) whose status, operator and vault all
    /// match the query.
    pub fn find(
        &self,
        target_operator: &Key,
        target_vault: &Key,
        status: SlashStatus,
    ) -> (r: Option<usize>)
        requires
            self.wf(),
        ensures
            match r {
                Some(i) => {
                    &&& i < 32
                    &&& entry_matches(
                        self.list@[i as int],
                        target_operator@,
                        target_vault@,
                        status,
                    )
                    &&& forall|k: int|
                        0 <= k < i ==> !entry_matches(
                            #[trigger] self.list@[k],
                            target_operator@,
                            target_vault@,
                            status,
                        )
                },
                None => !has_match(self.list@, target_operator@, target_vault@, status),
            },
    {
        let mut i: usize = 0;
        while i < 32
            invariant
                i <= 32,
                self.wf(),
                forall|k: int|
                    0 <= k < i ==> !entry_matches(
                        #[trigger] self.list@[k],
                        target_operator@,
                        target_vault@,
                        status,
                    ),
            decreases 32 - i,
        {
            let e = &self.list[i];
            if e.status == status
                && e.target_operator.eq_bytes(target_operator)
                && e.target_vault.eq_bytes(target_vault)
            {
                return Some(i);
            }
            i = i + 1;
        }
        None
    }

    /// Writes a fresh proposal into the first empty slot or, failing that,
    /// the first resolved slot whose delete period has elapsed (eager
    /// reclamation). Fails with `ListFull` when no slot is eligible.
    #[verifier::loop_isolation(false)]
    pub fn allocate(
        &mut self,
        proposal: SlashRequest,
        now: u64,
        delete_period: u64,
    ) -> (r: Result<usize, ResolverError>)
        requires
            old(self).wf(),
            proposal.status is Proposed,
            entry_wf(proposal),
            !has_match(
                old(self).list@,
                proposal.target_operator@,
                proposal.target_vault@,
                SlashStatus::Proposed,
            ),
        ensures
            final(self).ncn == old(self).ncn,
            final(self).bump == old(self).bump,
            final(self).wf(),
            forall|k: int|
                0 <= k < 32 ==> lifecycle_step_or_reuse(
                    #[trigger] old(self).list@[k],
                    final(self).list@[k],
                    now,
                    delete_period,
                ),
            match r {
                Ok(i) => {
                    &&& i < 32
                    &&& allocatable(old(self).list@[i as int], now, delete_period)
                    &&& chosen_slot_ok(old(self).list@, i as int, now, delete_period)
                    &&& final(self).list@ == old(self).list@.update(i as int, proposal)
                },
                Err(e) => {
                    &&& e == ResolverError::ListFull
                    &&& final(self).list@ == old(self).list@
                    &&& forall|k: int|
                        0 <= k < 32 ==> !allocatable(
                            #[trigger] old(self).list@[k],
                            now,
                            delete_period,
                        )
                },
            },
    {
        let mut i: usize = 0;
        while i < 32
            invariant
                i <= 32,
                *self == *old(self),
                forall|k: int| 0 <= k < i ==> !((#[trigger] self.list@[k]).status is Empty),
            decreases 32 - i,
        {
            if self.list[i].status == SlashStatus::Empty {
                self.set_slot(i, proposal);
                return Ok(i);
            }
            i = i + 1;
        }
        let mut j: usize = 0;
        while j < 32
            invariant
                j <= 32,
                *self == *old(self),
                forall|k: int| 0 <= k < 32 ==> !((#[trigger] self.list@[k]).status is Empty),
                forall|k: int|
                    0 <= k < j ==> !allocatable(#[trigger] self.list@[k], now, delete_period),
            decreases 32 - j,
        {
            let e = self.list[j];
            if (e.status == SlashStatus::Vetoed || e.status == SlashStatus::Completed)
                && now >= e.resolved_at && now - e.resolved_at >= delete_period {
                self.set_slot(j, proposal);
                return Ok(j);
            }
            j = j + 1;
        }
        Err(ResolverError::ListFull)
    }

    /// Overwrites one slot with a fresh proposal, keeping the list well
    /// formed: the pair must not already have an active proposal elsewhere.
    fn set_slot(&mut self, i: usize, proposal: SlashRequest)
        requires
            old(self).wf(),
            i < 32,
            proposal.status is Proposed,
            entry_wf(proposal),
            !has_match(
                old(self).list@,
                proposal.target_operator@,
                proposal.target_vault@,
                SlashStatus::Proposed,
            ),
        ensures
            final(self).ncn == old(self).ncn,
            final(self).bump == old(self).bump,
            final(self).list@ == old(self).list@.update(i as int, proposal),
            final(self).wf(),
    {
        self.list[i] = proposal;
        proof {
            let s0 = old(self).list@;
            let s1 = self.list@;
            assert forall|a: int, b: int|
                0 <= a < 32 && 0 <= b < 32 && a != b
                    && (#[trigger] s1[a]).status is Proposed
                    && (#[trigger] s1[b]).status is Proposed
                    implies !(s1[a].target_operator@ == s1[b].target_operator@
                        && s1[a].target_vault@ == s1[b].target_vault@) by {
                if a != i && b != i {
                    assert(s1[a] == s0[a] && s1[b] == s0[b]);
                } else if a == i {
                    assert(s1[b] == s0[b]);
                    assert(!entry_matches(
                        s0[b],
                        proposal.target_operator@,
                        proposal.target_vault@,
                        SlashStatus::Proposed,
                    ));
                } else {
                    assert(s1[a] == s0[a]);
                    assert(!entry_matches(
                        s0[a],
                        proposal.target_operator@,
                        proposal.target_vault@,
                        SlashStatus::Proposed,
                    ));
                }
            }
        }
    }

    /// Atomically checks that slot `index` still has status `from` and that
    /// the caller's timing guard held, then resolves it to `to`, stamping
    /// `resolved_at` (and forfeiting the amount on a veto). A slot in the
    /// wrong state reports `SlashProposalCompleted` when already completed
    /// and `SlashProposalInvalid` otherwise; a failed guard reports the
    /// caller's `guard_err`.
    pub fn transition(
        &mut self,
        index: usize,
        from: SlashStatus,
        to: SlashStatus,
        guard_ok: bool,
        guard_err: ResolverError,
        now: u64,
    ) -> (r: Result<(), ResolverError>)
        requires
            old(self).wf(),
            index < 32,
            from is Proposed,
            to is Vetoed || to is Completed,
        ensures
            final(self).ncn == old(self).ncn,
            final(self).bump == old(self).bump,
            final(self).wf(),
            forall|k: int|
                0 <= k < 32 ==> lifecycle_step(
                    #[trigger] old(self).list@[k],
                    final(self).list@[k],
                ),
            match r {
                Ok(_) => {
                    &&& old(self).list@[index as int].status == from
                    &&& guard_ok
                    &&& final(self).list@ == old(self).list@.update(
                        index as int,
                        resolved_entry(old(self).list@[index as int], to, now),
                    )
                },
                Err(e) => {
                    &&& final(self).list@ == old(self).list@
                    &&& if old(self).list@[index as int].status != from {
                        e == (if old(self).list@[index as int].status is Completed {
                            ResolverError::SlashProposalCompleted
                        } else {
                            ResolverError::SlashProposalInvalid
                        })
                    } else {
                        !guard_ok && e == guard_err
                    }
                },
            },
    {
        let e = self.list[index];
        if e.status != from {
            if e.status == SlashStatus::Completed {
                return Err(ResolverError::SlashProposalCompleted);
            }
            return Err(ResolverError::SlashProposalInvalid);
        }
        if !guard_ok {
            return Err(guard_err);
        }
        let mut resolved = e;
        resolved.status = to;
        resolved.resolved_at = now;
        if to == SlashStatus::Vetoed {
            resolved.requested_amount = 0;
        }
        self.list[index] = resolved;
        Ok(())
    }

    /// Runtime check of `wf`, for callers outside the verified world that
    /// must establish it before using the lifecycle operations.
    #[verifier::loop_isolation(false)]
    pub fn is_well_formed(&self) -> (r: bool)
        ensures
            r == self.wf(),
    {
        if self.list.len() != 32 {
            return false;
        }
        let mut i: usize = 0;
        while i < 32
            invariant
                i <= 32,
                forall|k: int| 0 <= k < i ==> entry_wf(#[trigger] self.list@[k]),
            decreases 32 - i,
        {
            if !entry_well_formed(&self.list[i]) {
                return false;
            }
            i = i + 1;
        }
        let mut a: usize = 0;
        while a < 32
            invariant
                a <= 32,
                forall|x: int, y: int|
                    0 <= x < a && x < y < 32 && (#[trigger] self.list@[x]).status is Proposed
                        && (#[trigger] self.list@[y]).status is Proposed
                        ==> !(self.list@[x].target_operator@ == self.list@[y].target_operator@
                            && self.list@[x].target_vault@ == self.list@[y].target_vault@),
            decreases 32 - a,
        {
            if self.list[a].status == SlashStatus::Proposed {
                let mut b: usize = a + 1;
                while b < 32
                    invariant
                        a < b <= 32,
                        forall|y: int|
                            a < y < b && (#[trigger] self.list@[y]).status is Proposed
                                ==> !(self.list@[a as int].target_operator@
                                    == self.list@[y].target_operator@
                                    && self.list@[a as int].target_vault@
                                    == self.list@[y].target_vault@),
                    decreases 32 - b,
                {
                    if self.list[b].status == SlashStatus::Proposed
                        && self.list[a].target_operator.eq_bytes(&self.list[b].target_operator)
                        && self.list[a].target_vault.eq_bytes(&self.list[b].target_vault) {
                        return false;
                    }
                    b = b + 1;
                }
            }
            a = a + 1;
        }
        proof {
            assert forall|i2: int, j2: int|
                0 <= i2 < 32 && 0 <= j2 < 32 && i2 != j2
                    && (#[trigger] self.list@[i2]).status is Proposed
                    && (#[trigger] self.list@[j2]).status is Proposed
                    implies !(self.list@[i2].target_operator@
                        == self.list@[j2].target_operator@
                        && self.list@[i2].target_vault@ == self.list@[j2].target_vault@) by {
                if i2 < j2 {
                    assert(self.list@[i2].status is Proposed && self.list@[j2].status is Proposed);
                } else {
                    assert(self.list@[j2].status is Proposed && self.list@[i2].status is Proposed);
                }
            }
        }
        true
    }

    /// Resets one resolved slot back to empty. The lifecycle operation
    /// checks the delete-period guard before calling this.
    pub(crate) fn clear_slot(&mut self, index: usize)
        requires
            old(self).wf(),
            index < 32,
            old(self).list@[index as int].status is Vetoed
                || old(self).list@[index as int].status is Completed,
        ensures
            final(self).ncn == old(self).ncn,
            final(self).bump == old(self).bump,
            final(self).wf(),
            final(self).list@.len() == 32,
            final(self).list@[index as int].status is Empty,
            forall|k: int|
                0 <= k < 32 && k != index ==> final(self).list@[k] == old(self).list@[k],
            forall|k: int|
                0 <= k < 32 ==> lifecycle_step(
                    #[trigger] old(self).list@[k],
                    final(self).list@[k],
                ),
    {
        self.list[index] = SlashRequest::empty();
    }
}

} // verus!
