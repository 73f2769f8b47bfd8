use resolver::config::ResolverConfig;
use resolver::error::ResolverError;
use resolver::key::Key;
use resolver::lifecycle::{
    compute_slash_amount, execute_instant_slash, execute_slash, reclaim, request_slash,
    veto_slash,
};
use resolver::slash_request::SlashStatus;
use resolver::slash_request_list::{SlashRequestList, MAX_SLASH_REQUEST};

fn key(n: u8) -> Key {
    Key { bytes: [n; 32] }
}

const ADMIN: u8 = 1;
const SLASHER_ADMIN: u8 = 2;
const DELEGATE: u8 = 3;
const INSTANT: u8 = 4;
const NCN: u8 = 9;
const OPERATOR: u8 = 20;
const VAULT: u8 = 21;

fn config(veto_period: u64, delete_period: u64) -> ResolverConfig {
    ResolverConfig::new(
        key(ADMIN),
        key(SLASHER_ADMIN),
        key(DELEGATE),
        key(INSTANT),
        veto_period,
        delete_period,
        255,
    )
}

fn fresh_list() -> SlashRequestList {
    SlashRequestList::new(key(NCN), 254)
}

/// A proposal for the pair with a directly chosen amount: the full stake,
/// nothing yet slashed, share 1/1.
fn propose(
    cfg: &ResolverConfig,
    list: &mut SlashRequestList,
    op: u8,
    vault: u8,
    amount: u64,
    now: u64,
) -> Result<usize, ResolverError> {
    request_slash(cfg, list, &key(NCN), &key(op), &key(vault), amount, 0, 1, 1, now)
}

#[test]
fn compute_slash_amount_is_proportional() {
    assert_eq!(compute_slash_amount(1000, 200, 250, 10000), Ok(20));
    assert_eq!(compute_slash_amount(1000, 0, 1, 1), Ok(1000));
    assert_eq!(compute_slash_amount(7, 0, 1, 2), Ok(3));
    assert_eq!(compute_slash_amount(0, 0, 5, 7), Ok(0));
}

#[test]
fn compute_slash_amount_reports_each_hazard() {
    assert_eq!(
        compute_slash_amount(100, 101, 1, 1),
        Err(ResolverError::ArithmeticUnderflow)
    );
    assert_eq!(compute_slash_amount(100, 0, 1, 0), Err(ResolverError::DivisionByZero));
    assert_eq!(
        compute_slash_amount(u64::MAX, 0, 2, 1),
        Err(ResolverError::ArithmeticOverflow)
    );
    // Underflow is reported before division by zero.
    assert_eq!(
        compute_slash_amount(100, 101, 1, 0),
        Err(ResolverError::ArithmeticUnderflow)
    );
}

#[test]
fn arithmetic_failure_leaves_the_list_untouched() {
    let cfg = config(100, 50);
    let mut list = fresh_list();
    let before = list.clone();
    assert_eq!(
        request_slash(&cfg, &mut list, &key(NCN), &key(OPERATOR), &key(VAULT), 100, 101, 1, 1, 0),
        Err(ResolverError::ArithmeticUnderflow)
    );
    assert_eq!(list, before);
    // The veto deadline itself is computed with checked arithmetic.
    assert_eq!(
        request_slash(
            &cfg,
            &mut list,
            &key(NCN),
            &key(OPERATOR),
            &key(VAULT),
            10,
            0,
            1,
            1,
            u64::MAX
        ),
        Err(ResolverError::ArithmeticOverflow)
    );
    assert_eq!(list, before);
}

#[test]
fn windowed_lifecycle_scenario() {
    let cfg = config(100, 50);
    let mut list = fresh_list();

    let slot = propose(&cfg, &mut list, OPERATOR, VAULT, 1000, 0).unwrap();
    assert_eq!(slot, 0);
    assert_eq!(list.list[0].status, SlashStatus::Proposed);
    assert_eq!(list.list[0].veto_deadline, 100);
    assert_eq!(list.list[0].requested_amount, 1000);

    // Veto after the window closed.
    assert_eq!(
        veto_slash(
            &cfg,
            &mut list,
            &key(NCN),
            &key(SLASHER_ADMIN),
            false,
            &key(OPERATOR),
            &key(VAULT),
            150
        ),
        Err(ResolverError::SlashProposalVetoPeriodEnded)
    );
    // Execute before the window closed.
    assert_eq!(
        execute_slash(&cfg, &mut list, &key(NCN), &key(OPERATOR), &key(VAULT), 50),
        Err(ResolverError::SlashProposalVetoPeriodNotEnded)
    );
    // The boundary instant belongs to execution, not veto.
    assert_eq!(
        veto_slash(
            &cfg,
            &mut list,
            &key(NCN),
            &key(SLASHER_ADMIN),
            false,
            &key(OPERATOR),
            &key(VAULT),
            100
        ),
        Err(ResolverError::SlashProposalVetoPeriodEnded)
    );
    assert_eq!(
        execute_slash(&cfg, &mut list, &key(NCN), &key(OPERATOR), &key(VAULT), 99),
        Err(ResolverError::SlashProposalVetoPeriodNotEnded)
    );
    // Execute exactly at the deadline.
    let (op, vault, amount) =
        execute_slash(&cfg, &mut list, &key(NCN), &key(OPERATOR), &key(VAULT), 100).unwrap();
    assert_eq!(op.bytes, key(OPERATOR).bytes);
    assert_eq!(vault.bytes, key(VAULT).bytes);
    assert_eq!(amount, 1000);
    assert_eq!(list.list[0].status, SlashStatus::Completed);
    assert_eq!(list.list[0].resolved_at, 100);
    assert_eq!(list.list[0].requested_amount, 1000);

    // Reclaim before the delete period has elapsed.
    assert_eq!(
        reclaim(&cfg, &mut list, &key(NCN), 0, 140),
        Err(ResolverError::SlashProposalDeletePeriodNotEnded)
    );
    // Reclaim once it has.
    assert_eq!(reclaim(&cfg, &mut list, &key(NCN), 0, 150), Ok(()));
    assert_eq!(list.list[0].status, SlashStatus::Empty);
    assert_eq!(list.list[0].requested_amount, 0);
    assert!(list.is_well_formed());
}

#[test]
fn instant_slash_scenario() {
    let cfg = config(100, 50);
    let mut list = fresh_list();
    propose(&cfg, &mut list, OPERATOR, VAULT, 500, 0).unwrap();

    let (_, _, amount) = execute_instant_slash(
        &cfg,
        &mut list,
        &key(NCN),
        &key(INSTANT),
        &key(OPERATOR),
        &key(VAULT),
        0,
    )
    .unwrap();
    assert_eq!(amount, 500);
    assert_eq!(list.list[0].status, SlashStatus::Completed);
    assert_eq!(list.list[0].resolved_at, 0);

    // A later veto attempt on the completed slot names the completed state.
    assert_eq!(
        veto_slash(
            &cfg,
            &mut list,
            &key(NCN),
            &key(SLASHER_ADMIN),
            false,
            &key(OPERATOR),
            &key(VAULT),
            10
        ),
        Err(ResolverError::SlashProposalCompleted)
    );
}

#[test]
fn veto_forfeits_the_amount() {
    let cfg = config(100, 50);
    let mut list = fresh_list();
    propose(&cfg, &mut list, OPERATOR, VAULT, 750, 0).unwrap();
    assert_eq!(
        veto_slash(
            &cfg,
            &mut list,
            &key(NCN),
            &key(SLASHER_ADMIN),
            false,
            &key(OPERATOR),
            &key(VAULT),
            99
        ),
        Ok(())
    );
    assert_eq!(list.list[0].status, SlashStatus::Vetoed);
    assert_eq!(list.list[0].requested_amount, 0);
    assert_eq!(list.list[0].resolved_at, 99);
}

#[test]
fn veto_authorization_paths() {
    let cfg = config(100, 50);
    let mut list = fresh_list();
    propose(&cfg, &mut list, OPERATOR, VAULT, 10, 0).unwrap();

    assert_eq!(
        veto_slash(&cfg, &mut list, &key(NCN), &key(77), false, &key(OPERATOR), &key(VAULT), 1),
        Err(ResolverError::SlasherAdminInvalid)
    );
    assert_eq!(
        veto_slash(&cfg, &mut list, &key(NCN), &key(77), true, &key(OPERATOR), &key(VAULT), 1),
        Err(ResolverError::SlasherDelegateAdminInvalid)
    );
    // The delegate key only works on the delegate path.
    assert_eq!(
        veto_slash(
            &cfg,
            &mut list,
            &key(NCN),
            &key(DELEGATE),
            false,
            &key(OPERATOR),
            &key(VAULT),
            1
        ),
        Err(ResolverError::SlasherAdminInvalid)
    );
    assert_eq!(
        veto_slash(&cfg, &mut list, &key(NCN), &key(DELEGATE), true, &key(OPERATOR), &key(VAULT), 1),
        Ok(())
    );
}

#[test]
fn instant_slash_requires_its_own_role() {
    let cfg = config(100, 50);
    let mut list = fresh_list();
    propose(&cfg, &mut list, OPERATOR, VAULT, 10, 0).unwrap();
    assert_eq!(
        execute_instant_slash(
            &cfg,
            &mut list,
            &key(NCN),
            &key(SLASHER_ADMIN),
            &key(OPERATOR),
            &key(VAULT),
            0
        ),
        Err(ResolverError::SlasherAdminInvalid)
    );
}

#[test]
fn wrong_network_is_rejected_everywhere() {
    let cfg = config(100, 50);
    let mut list = fresh_list();
    let other = key(10);
    assert_eq!(
        request_slash(&cfg, &mut list, &other, &key(OPERATOR), &key(VAULT), 1, 0, 1, 1, 0),
        Err(ResolverError::SlashProposalResolverInvalid)
    );
    assert_eq!(
        veto_slash(&cfg, &mut list, &other, &key(SLASHER_ADMIN), false, &key(OPERATOR), &key(VAULT), 0),
        Err(ResolverError::SlashProposalResolverInvalid)
    );
    assert_eq!(
        execute_slash(&cfg, &mut list, &other, &key(OPERATOR), &key(VAULT), 0),
        Err(ResolverError::SlashProposalResolverInvalid)
    );
    assert_eq!(
        execute_instant_slash(&cfg, &mut list, &other, &key(INSTANT), &key(OPERATOR), &key(VAULT), 0),
        Err(ResolverError::SlashProposalResolverInvalid)
    );
    assert_eq!(
        reclaim(&cfg, &mut list, &other, 0, 0),
        Err(ResolverError::SlashProposalResolverInvalid)
    );
}

#[test]
fn one_active_proposal_per_pair() {
    let cfg = config(100, 50);
    let mut list = fresh_list();
    assert_eq!(propose(&cfg, &mut list, OPERATOR, VAULT, 10, 0), Ok(0));
    assert_eq!(
        propose(&cfg, &mut list, OPERATOR, VAULT, 10, 1),
        Err(ResolverError::SlashProposalInvalid)
    );
    // A different vault of the same operator is a different infraction.
    assert_eq!(propose(&cfg, &mut list, OPERATOR, VAULT + 1, 10, 1), Ok(1));
    assert!(list.is_well_formed());
}

#[test]
fn capacity_ceiling_at_32() {
    let cfg = config(100, 50);
    let mut list = fresh_list();
    for n in 0..32u8 {
        assert_eq!(propose(&cfg, &mut list, 100 + n, VAULT, 5, 0), Ok(n as usize));
    }
    assert_eq!(
        propose(&cfg, &mut list, 200, VAULT, 5, 0),
        Err(ResolverError::ListFull)
    );
}

#[test]
fn allocation_reuses_the_lowest_eligible_slot() {
    let cfg = config(10, 50);
    let mut list = fresh_list();
    for n in 0..32u8 {
        propose(&cfg, &mut list, 100 + n, VAULT, 5, 0).unwrap();
    }
    // Resolve slots 3 and 5 at t=10; their delete period runs until t=60.
    execute_slash(&cfg, &mut list, &key(NCN), &key(103), &key(VAULT), 10).unwrap();
    execute_slash(&cfg, &mut list, &key(NCN), &key(105), &key(VAULT), 10).unwrap();
    assert_eq!(
        propose(&cfg, &mut list, 200, VAULT, 5, 59),
        Err(ResolverError::ListFull)
    );
    // Eager reclamation takes the lowest reclaimable slot.
    assert_eq!(propose(&cfg, &mut list, 200, VAULT, 5, 60), Ok(3));
    assert_eq!(list.list[3].target_operator.bytes, key(200).bytes);
    assert_eq!(propose(&cfg, &mut list, 201, VAULT, 5, 60), Ok(5));
    assert!(list.is_well_formed());
}

#[test]
fn reclaim_rejects_the_wrong_state_or_slot() {
    let cfg = config(100, 50);
    let mut list = fresh_list();
    propose(&cfg, &mut list, OPERATOR, VAULT, 10, 0).unwrap();
    assert_eq!(
        reclaim(&cfg, &mut list, &key(NCN), 0, 1000),
        Err(ResolverError::SlashProposalInvalid)
    );
    assert_eq!(
        reclaim(&cfg, &mut list, &key(NCN), 1, 1000),
        Err(ResolverError::SlashProposalInvalid)
    );
    assert_eq!(
        reclaim(&cfg, &mut list, &key(NCN), 32, 1000),
        Err(ResolverError::SlashProposalInvalid)
    );
}

#[test]
fn missing_proposal_is_distinguished_from_completed() {
    let cfg = config(100, 50);
    let mut list = fresh_list();
    assert_eq!(
        execute_slash(&cfg, &mut list, &key(NCN), &key(OPERATOR), &key(VAULT), 0),
        Err(ResolverError::SlashProposalInvalid)
    );
    assert_eq!(
        veto_slash(
            &cfg,
            &mut list,
            &key(NCN),
            &key(SLASHER_ADMIN),
            false,
            &key(OPERATOR),
            &key(VAULT),
            0
        ),
        Err(ResolverError::SlashProposalInvalid)
    );
    propose(&cfg, &mut list, OPERATOR, VAULT, 10, 0).unwrap();
    execute_slash(&cfg, &mut list, &key(NCN), &key(OPERATOR), &key(VAULT), 100).unwrap();
    assert_eq!(
        execute_slash(&cfg, &mut list, &key(NCN), &key(OPERATOR), &key(VAULT), 200),
        Err(ResolverError::SlashProposalCompleted)
    );
}

#[test]
fn config_update_is_admin_only() {
    let mut cfg = config(100, 50);
    assert_eq!(
        cfg.update(&key(55), key(12), key(13), key(14), 7, 8),
        Err(ResolverError::ResolverAdminInvalid)
    );
    assert_eq!(cfg.veto_period, 100);
    assert_eq!(cfg.update(&key(ADMIN), key(12), key(13), key(14), 7, 8), Ok(()));
    assert_eq!(cfg.slasher_admin.bytes, key(12).bytes);
    assert_eq!(cfg.slasher_delegate_admin.bytes, key(13).bytes);
    assert_eq!(cfg.instant_slasher.bytes, key(14).bytes);
    assert_eq!(cfg.veto_period, 7);
    assert_eq!(cfg.delete_period, 8);
    assert_eq!(cfg.admin.bytes, key(ADMIN).bytes);
}

#[test]
fn new_list_is_well_formed_and_empty() {
    let list = fresh_list();
    assert!(list.is_well_formed());
    assert_eq!(MAX_SLASH_REQUEST, 32);
    assert_eq!(list.list.len(), MAX_SLASH_REQUEST);
    for e in list.list.iter() {
        assert_eq!(e.status, SlashStatus::Empty);
        assert_eq!(e.requested_amount, 0);
    }
    assert_eq!(list.ncn.bytes, key(NCN).bytes);
    assert_eq!(list.bump, 254);
}

#[test]
fn well_formedness_check_rejects_corrupt_lists() {
    let cfg = config(100, 50);

    // Two Proposed entries for the same pair.
    let mut list = fresh_list();
    propose(&cfg, &mut list, OPERATOR, VAULT, 10, 0).unwrap();
    let dup = list.list[0];
    list.list[1] = dup;
    assert!(!list.is_well_formed());

    // A vetoed slot that kept its amount.
    let mut list = fresh_list();
    propose(&cfg, &mut list, OPERATOR, VAULT, 10, 0).unwrap();
    veto_slash(&cfg, &mut list, &key(NCN), &key(SLASHER_ADMIN), false, &key(OPERATOR), &key(VAULT), 1)
        .unwrap();
    list.list[0].requested_amount = 1;
    assert!(!list.is_well_formed());

    // An empty slot with leftover payload.
    let mut list = fresh_list();
    list.list[7].proposed_at = 3;
    assert!(!list.is_well_formed());

    // A truncated list.
    let mut list = fresh_list();
    list.list.pop();
    assert!(!list.is_well_formed());
}

#[test]
fn find_returns_the_first_match() {
    let cfg = config(100, 50);
    let mut list = fresh_list();
    propose(&cfg, &mut list, OPERATOR, VAULT, 10, 0).unwrap();
    propose(&cfg, &mut list, OPERATOR + 1, VAULT, 10, 0).unwrap();
    assert_eq!(
        list.find(&key(OPERATOR + 1), &key(VAULT), SlashStatus::Proposed),
        Some(1)
    );
    assert_eq!(list.find(&key(OPERATOR), &key(VAULT), SlashStatus::Completed), None);
    assert_eq!(list.find(&key(99), &key(VAULT), SlashStatus::Proposed), None);
}
