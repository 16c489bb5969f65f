//! Scenarios of the state operations: registration, updates, removal, the
//! rebalance and manual top-up flows, queries, guards and the stable
//! memory layout.
use candid::Principal;

use minter::admin::{
    add_reserve_impl, apply_init_arg, release_mint_lock, release_stuck_mint_state_impl, remove_reserve_impl,
    rollback_manual_mint_begin, set_global_policy_impl, update_reserve_impl,
};
use minter::guards::{caller_is_controller, caller_is_not_anonymous};
use minter::mint::{
    can_record_mint, manual_topup_begin, manual_topup_commit, preview_begin, preview_outcome,
    rebalance_begin, rebalance_commit, rebalance_plan, validate_manual_topup_inputs,
    ManualTopupBegin, RebalanceStep,
};
use minter::model::{
    AddReserveArg, Arg, GlobalPolicy, InitArg, IdempotencyRecord, MintEvent, MinterError, RateLimits,
    RebalanceAction, ReserveAccount,
};
use minter::params::{ManualTopupArg, ReleaseStuckMintArg, UpdateReserveArg};
use minter::query::{get_global_policy, get_ledger_id, get_reserve_impl, list_reserves, reserve_ids};
use minter::reserve::{
    available_mint_budget, check_rate_limits, prune_old_events, usage_in_window,
    validate_reserve_config, NANOS_PER_DAY, NANOS_PER_HOUR, NANOS_PER_YEAR,
};
use minter::stable::{
    decode_length_prefix, length_prefix, pages_to_grow, restorable_len, PAGE_SIZE,
};
use minter::memo::{rebalance_memo, topup_memo};
use minter::state::State;

fn owner(n: u8) -> Principal {
    Principal::from_slice(&[n, 1, 2, 3])
}

fn arg(owner_byte: u8, label: &str) -> AddReserveArg {
    AddReserveArg {
        account: ReserveAccount { owner: owner(owner_byte), subaccount: None },
        min_balance: 100,
        target_balance: 1000,
        max_balance: None,
        max_topup_per_rebalance: None,
        lifetime_received_minimum: None,
        lifetime_received_maximum: None,
        rate_limits: None,
        enabled: true,
        allow_manual_topup: true,
        allow_auto_rebalance: true,
        purpose: String::from("testing"),
        label: String::from(label),
    }
}

fn empty_update(id: u64) -> UpdateReserveArg {
    UpdateReserveArg {
        id,
        min_balance: None,
        target_balance: None,
        max_balance: None,
        max_topup_per_rebalance: None,
        lifetime_received_minimum: None,
        lifetime_received_maximum: None,
        rate_limits: None,
        enabled: None,
        allow_manual_topup: None,
        allow_auto_rebalance: None,
        purpose: None,
        label: None,
    }
}

fn topup(id: u64, amount: u64, key: Option<&str>) -> ManualTopupArg {
    ManualTopupArg { reserve_id: id, amount, idempotency_key: key.map(String::from) }
}

fn invalid_reason(e: &MinterError) -> String {
    match e {
        MinterError::InvalidConfig { reason } => reason.clone(),
        other => panic!("unexpected error {other:?}"),
    }
}

// -- state and registration -------------------------------------------------

#[test]
fn default_state_is_empty() {
    let s = State::default();
    assert_eq!(s.next_reserve_id, 0);
    assert!(s.reserves.is_empty());
    assert!(s.global_policy.minting_enabled);
    assert_eq!(s.global_policy.max_mint_per_operation, None);
    assert_eq!(get_ledger_id(&s), Principal::anonymous());
    assert!(list_reserves(&s).is_empty());
}

#[test]
fn default_policy_enables_minting() {
    let p = GlobalPolicy::default();
    assert!(p.minting_enabled);
    assert!(p.max_mint_per_operation.is_none());
}

#[test]
fn add_assigns_increasing_ids_and_reads_back() {
    let mut s = State::default();
    assert_eq!(add_reserve_impl(&mut s, arg(1, "a")).unwrap(), 0);
    assert_eq!(add_reserve_impl(&mut s, arg(2, "b")).unwrap(), 1);
    assert_eq!(s.next_reserve_id, 2);
    let info = get_reserve_impl(&s, 1).unwrap();
    assert_eq!(info.id, 1);
    assert_eq!(info.config.label, "b");
    assert_eq!(info.lifetime_minted, 0);
    assert_eq!(reserve_ids(&s), vec![0, 1]);
    let all = list_reserves(&s);
    assert_eq!(all.len(), 2);
    assert_eq!(all[0].config.label, "a");
}

#[test]
fn add_rejects_invalid_config_without_change() {
    let mut s = State::default();
    let mut a = arg(1, "a");
    a.min_balance = 5000;
    let e = add_reserve_impl(&mut s, a).unwrap_err();
    assert_eq!(invalid_reason(&e), "min_balance must be <= target_balance");
    assert_eq!(s.next_reserve_id, 0);
    assert!(s.reserves.is_empty());
}

#[test]
fn add_rejects_non_progressive_rate_limits() {
    let mut s = State::default();
    let mut a = arg(1, "a");
    a.rate_limits = Some(RateLimits {
        max_amount_per_hour: Some(100),
        max_amount_per_day: Some(2400),
        max_amount_per_week: None,
        max_amount_per_month: None,
        max_amount_per_year: None,
    });
    let e = add_reserve_impl(&mut s, a).unwrap_err();
    assert_eq!(
        invalid_reason(&e),
        "Rate limits must be progressively more restrictive for larger time windows"
    );
}

#[test]
fn add_rejects_duplicate_account() {
    let mut s = State::default();
    add_reserve_impl(&mut s, arg(1, "a")).unwrap();
    let e = add_reserve_impl(&mut s, arg(1, "again")).unwrap_err();
    assert!(matches!(e, MinterError::ReserveAccountAlreadyExists { .. }));
    assert_eq!(s.next_reserve_id, 1);
    assert_eq!(s.reserves.len(), 1);
}

#[test]
fn default_subaccount_equals_zero_subaccount() {
    let mut s = State::default();
    add_reserve_impl(&mut s, arg(1, "a")).unwrap();
    let mut a = arg(1, "zeros");
    a.account.subaccount = Some([0u8; 32]);
    let e = add_reserve_impl(&mut s, a).unwrap_err();
    assert!(matches!(e, MinterError::ReserveAccountAlreadyExists { .. }));
    let mut b = arg(1, "other sub");
    let mut sub = [0u8; 32];
    sub[31] = 1;
    b.account.subaccount = Some(sub);
    assert_eq!(add_reserve_impl(&mut s, b).unwrap(), 1);
}

// -- update -------------------------------------------------------------------

#[test]
fn update_changes_only_given_fields() {
    let mut s = State::default();
    add_reserve_impl(&mut s, arg(1, "a")).unwrap();
    let mut u = empty_update(0);
    u.target_balance = Some(2000);
    u.max_balance = Some(Some(3000));
    u.label = Some(String::from("renamed"));
    update_reserve_impl(&mut s, u).unwrap();
    let info = get_reserve_impl(&s, 0).unwrap();
    assert_eq!(info.config.target_balance, 2000);
    assert_eq!(info.config.max_balance, Some(3000));
    assert_eq!(info.config.label, "renamed");
    assert_eq!(info.config.min_balance, 100);
    assert_eq!(info.config.purpose, "testing");

    let mut clear = empty_update(0);
    clear.max_balance = Some(None);
    update_reserve_impl(&mut s, clear).unwrap();
    assert_eq!(get_reserve_impl(&s, 0).unwrap().config.max_balance, None);
}

#[test]
fn update_unknown_reserve_fails() {
    let mut s = State::default();
    let e = update_reserve_impl(&mut s, empty_update(7)).unwrap_err();
    assert!(matches!(e, MinterError::ReserveNotFound { id: 7 }));
}

#[test]
fn update_lifetime_minimum_only_increases() {
    let mut s = State::default();
    let mut a = arg(1, "a");
    a.lifetime_received_minimum = Some(500);
    add_reserve_impl(&mut s, a).unwrap();
    let mut down = empty_update(0);
    down.lifetime_received_minimum = Some(400);
    let e = update_reserve_impl(&mut s, down).unwrap_err();
    assert_eq!(invalid_reason(&e), "lifetime_received_minimum can only increase, not decrease");
    let mut up = empty_update(0);
    up.lifetime_received_minimum = Some(600);
    update_reserve_impl(&mut s, up).unwrap();
    assert_eq!(get_reserve_impl(&s, 0).unwrap().config.lifetime_received_minimum, Some(600));
}

#[test]
fn update_result_is_validated() {
    let mut s = State::default();
    add_reserve_impl(&mut s, arg(1, "a")).unwrap();
    let mut u = empty_update(0);
    u.label = Some(String::new());
    let e = update_reserve_impl(&mut s, u).unwrap_err();
    assert_eq!(invalid_reason(&e), "Label cannot be empty");
    assert_eq!(get_reserve_impl(&s, 0).unwrap().config.label, "a");
}

// -- remove and policy -----------------------------------------------------

#[test]
fn remove_returns_config_and_forgets_reserve() {
    let mut s = State::default();
    add_reserve_impl(&mut s, arg(1, "a")).unwrap();
    add_reserve_impl(&mut s, arg(2, "b")).unwrap();
    let c = remove_reserve_impl(&mut s, 0).unwrap();
    assert_eq!(c.label, "a");
    assert!(matches!(get_reserve_impl(&s, 0), Err(MinterError::ReserveNotFound { id: 0 })));
    assert!(matches!(remove_reserve_impl(&mut s, 0), Err(MinterError::ReserveNotFound { id: 0 })));
    assert_eq!(reserve_ids(&s), vec![1]);
    // ids are never reused
    assert_eq!(add_reserve_impl(&mut s, arg(3, "c")).unwrap(), 2);
}

#[test]
fn remove_refused_while_minting() {
    let mut s = State::default();
    add_reserve_impl(&mut s, arg(1, "a")).unwrap();
    rebalance_begin(&mut s, 0).unwrap();
    assert!(matches!(
        remove_reserve_impl(&mut s, 0),
        Err(MinterError::ReserveOperationInProgress { id: 0 })
    ));
    release_mint_lock(&mut s, 0);
    assert!(remove_reserve_impl(&mut s, 0).is_ok());
}

#[test]
fn remove_refused_while_key_pending() {
    let mut s = State::default();
    add_reserve_impl(&mut s, arg(1, "a")).unwrap();
    manual_topup_begin(&mut s, &topup(0, 10, Some("k"))).unwrap();
    release_mint_lock(&mut s, 0);
    assert!(matches!(
        remove_reserve_impl(&mut s, 0),
        Err(MinterError::ReserveOperationInProgress { id: 0 })
    ));
}

#[test]
fn set_policy_replaces_policy() {
    let mut s = State::default();
    let p = GlobalPolicy { minting_enabled: false, max_mint_per_operation: Some(5) };
    set_global_policy_impl(&mut s, p).unwrap();
    let got = get_global_policy(&s);
    assert!(!got.minting_enabled);
    assert_eq!(got.max_mint_per_operation, Some(5));
}

// -- rebalance flow -----------------------------------------------------------

#[test]
fn rebalance_mints_deficit_and_records_it() {
    let mut s = State::default();
    add_reserve_impl(&mut s, arg(1, "a")).unwrap();
    let snap = rebalance_begin(&mut s, 0).unwrap();
    assert_eq!(snap.config.target_balance, 1000);
    let now = NANOS_PER_DAY;
    match rebalance_plan(&mut s, 0, &snap, 300, now).unwrap() {
        RebalanceStep::Mint { amount } => {
            assert_eq!(amount, 700);
            assert!(can_record_mint(&s, 0, amount));
            let resp = rebalance_commit(&mut s, 0, amount, now, 300, 42).unwrap();
            assert_eq!(resp.action, RebalanceAction::Minted);
            assert_eq!(resp.minted_amount, 700);
            assert_eq!(resp.balance_before, 300);
            assert_eq!(resp.ledger_block_index, Some(42));
        }
        RebalanceStep::Done(r) => panic!("unexpected {r:?}"),
    }
    assert_eq!(get_reserve_impl(&s, 0).unwrap().lifetime_minted, 700);
    assert_eq!(s.reserves[&0].mint_events.len(), 1);
    assert!(s.reserve_mint_inflight.is_empty());
}

#[test]
fn rebalance_lock_blocks_second_start() {
    let mut s = State::default();
    add_reserve_impl(&mut s, arg(1, "a")).unwrap();
    rebalance_begin(&mut s, 0).unwrap();
    assert!(matches!(
        rebalance_begin(&mut s, 0),
        Err(MinterError::ReserveOperationInProgress { id: 0 })
    ));
    assert!(matches!(rebalance_begin(&mut s, 9), Err(MinterError::ReserveNotFound { id: 9 })));
}

#[test]
fn rebalance_already_funded_releases_lock() {
    let mut s = State::default();
    add_reserve_impl(&mut s, arg(1, "a")).unwrap();
    let snap = rebalance_begin(&mut s, 0).unwrap();
    match rebalance_plan(&mut s, 0, &snap, 5000, 1).unwrap() {
        RebalanceStep::Done(r) => {
            assert_eq!(r.action, RebalanceAction::AlreadyFunded);
            assert_eq!(r.minted_amount, 0);
            assert_eq!(r.ledger_block_index, None);
        }
        RebalanceStep::Mint { .. } => panic!("should not mint"),
    }
    assert!(s.reserve_mint_inflight.is_empty());
}

#[test]
fn rebalance_minting_disabled_is_error_and_unlocks() {
    let mut s = State::default();
    add_reserve_impl(&mut s, arg(1, "a")).unwrap();
    set_global_policy_impl(&mut s, GlobalPolicy { minting_enabled: false, max_mint_per_operation: None })
        .unwrap();
    let snap = rebalance_begin(&mut s, 0).unwrap();
    assert!(matches!(rebalance_plan(&mut s, 0, &snap, 0, 1), Err(MinterError::MintingDisabled)));
    assert!(s.reserve_mint_inflight.is_empty());
}

#[test]
fn rebalance_capped_by_rate_budget_then_exhausted() {
    let mut s = State::default();
    let mut a = arg(1, "a");
    a.rate_limits = Some(RateLimits {
        max_amount_per_hour: Some(250),
        max_amount_per_day: None,
        max_amount_per_week: None,
        max_amount_per_month: None,
        max_amount_per_year: None,
    });
    add_reserve_impl(&mut s, a).unwrap();
    let now = NANOS_PER_DAY;
    let snap = rebalance_begin(&mut s, 0).unwrap();
    let amount = match rebalance_plan(&mut s, 0, &snap, 0, now).unwrap() {
        RebalanceStep::Mint { amount } => amount,
        RebalanceStep::Done(r) => panic!("unexpected {r:?}"),
    };
    assert_eq!(amount, 250);
    rebalance_commit(&mut s, 0, amount, now, 0, 1).unwrap();

    let snap = rebalance_begin(&mut s, 0).unwrap();
    match rebalance_plan(&mut s, 0, &snap, 250, now + 10).unwrap() {
        RebalanceStep::Done(r) => {
            assert_eq!(
                r.action,
                RebalanceAction::Skipped { reason: String::from("Rate limit budget exhausted") }
            );
            assert_eq!(r.balance_before, 250);
        }
        RebalanceStep::Mint { .. } => panic!("budget is used up"),
    }
    assert!(s.reserve_mint_inflight.is_empty());
}

#[test]
fn rebalance_commit_on_removed_reserve_reports_invariant() {
    let mut s = State::default();
    let r = rebalance_commit(&mut s, 3, 10, 1, 0, 5);
    match r {
        Err(MinterError::InternalInvariantViolated { reason }) => assert_eq!(
            reason,
            "reserve missing after successful ledger mint; call release_stuck_mint_state if needed"
        ),
        other => panic!("unexpected {other:?}"),
    }
}

// -- manual top-up flow --------------------------------------------------------

#[test]
fn manual_topup_with_key_replays() {
    let mut s = State::default();
    add_reserve_impl(&mut s, arg(1, "a")).unwrap();
    let t = topup(0, 77, Some("key-1"));
    let snap = match manual_topup_begin(&mut s, &t).unwrap() {
        ManualTopupBegin::Started(snap) => snap,
        ManualTopupBegin::Cached(_) => panic!("first call must start"),
    };
    assert!(matches!(
        manual_topup_begin(&mut s, &t),
        Err(MinterError::IdempotencyOperationInProgress { .. })
    ));
    validate_manual_topup_inputs(&t, &snap.policy, &snap.config, &snap.lifetime_minted, &500, &snap.mint_events, 10)
        .unwrap();
    let resp = manual_topup_commit(&mut s, &t, 9, 10).unwrap();
    assert_eq!(resp.minted_amount, 77);
    assert_eq!(resp.ledger_block_index, 9);
    match manual_topup_begin(&mut s, &t).unwrap() {
        ManualTopupBegin::Cached(r) => assert_eq!(r, resp),
        ManualTopupBegin::Started(_) => panic!("replay must not mint"),
    }
    assert_eq!(get_reserve_impl(&s, 0).unwrap().lifetime_minted, 77);
    assert!(matches!(s.idempotency[0].record, IdempotencyRecord::Completed(_)));
}

#[test]
fn completed_key_survives_other_operations() {
    let mut s = State::default();
    add_reserve_impl(&mut s, arg(1, "a")).unwrap();
    let t = topup(0, 40, Some("done"));
    manual_topup_begin(&mut s, &t).unwrap();
    let resp = manual_topup_commit(&mut s, &t, 12, 100).unwrap();
    add_reserve_impl(&mut s, arg(2, "b")).unwrap();
    let snap = rebalance_begin(&mut s, 1).unwrap();
    rebalance_plan(&mut s, 1, &snap, 0, 200).unwrap();
    release_stuck_mint_state_impl(&mut s, 1, Some("done")).unwrap();
    manual_topup_begin(&mut s, &topup(1, 5, Some("other"))).unwrap();
    rollback_manual_mint_begin(&mut s, 1, Some("other"));
    remove_reserve_impl(&mut s, 1).unwrap();
    match manual_topup_begin(&mut s, &topup(0, 999, Some("done"))).unwrap() {
        ManualTopupBegin::Cached(r) => assert_eq!(r, resp),
        ManualTopupBegin::Started(_) => panic!("a completed key must replay"),
    }
    assert!(s.reserve_mint_inflight.is_empty());
}

#[test]
fn manual_topup_checks_in_order() {
    let mut s = State::default();
    let mut a = arg(1, "a");
    a.lifetime_received_maximum = Some(100);
    a.allow_manual_topup = false;
    add_reserve_impl(&mut s, a).unwrap();
    let snap = rebalance_begin(&mut s, 0).unwrap();
    let t = topup(0, 50, None);
    let r = validate_manual_topup_inputs(&t, &snap.policy, &snap.config, &0, &0, &[], 1);
    assert!(matches!(r, Err(MinterError::ManualTopupNotAllowed { id: 0 })));
    let mut cfg = snap.config.clone();
    cfg.allow_manual_topup = true;
    let big = topup(0, 150, None);
    let r = validate_manual_topup_inputs(&big, &snap.policy, &cfg, &0, &0, &[], 1);
    assert!(matches!(r, Err(MinterError::AmountExceedsLimit { requested: 150, limit: 100 })));
    let policy = GlobalPolicy { minting_enabled: true, max_mint_per_operation: Some(10) };
    let r = validate_manual_topup_inputs(&t, &policy, &cfg, &0, &0, &[], 1);
    assert!(matches!(r, Err(MinterError::AmountExceedsLimit { requested: 50, limit: 10 })));
    cfg.enabled = false;
    let r = validate_manual_topup_inputs(&t, &snap.policy, &cfg, &0, &0, &[], 1);
    assert!(matches!(r, Err(MinterError::ReserveDisabled { id: 0 })));
    let off = GlobalPolicy { minting_enabled: false, max_mint_per_operation: None };
    let r = validate_manual_topup_inputs(&t, &off, &cfg, &0, &0, &[], 1);
    assert!(matches!(r, Err(MinterError::MintingDisabled)));
}

#[test]
fn manual_topup_respects_max_balance() {
    let mut s = State::default();
    let mut a = arg(1, "a");
    a.max_balance = Some(2000);
    add_reserve_impl(&mut s, a).unwrap();
    let snap = preview_begin(&s, 0).unwrap();
    let policy = GlobalPolicy::default();
    let t = topup(0, 500, None);
    let r = validate_manual_topup_inputs(&t, &policy, &snap.config, &0, &1600, &[], 1);
    assert!(matches!(r, Err(MinterError::AmountExceedsLimit { requested: 500, limit: 400 })));
    let r = validate_manual_topup_inputs(&t, &policy, &snap.config, &0, &2500, &[], 1);
    assert!(matches!(r, Err(MinterError::AmountExceedsLimit { requested: 500, limit: 0 })));
    assert!(validate_manual_topup_inputs(&t, &policy, &snap.config, &0, &1500, &[], 1).is_ok());
    let mut uncapped = snap.config.clone();
    uncapped.max_balance = None;
    assert!(validate_manual_topup_inputs(&t, &policy, &uncapped, &0, &u64::MAX, &[], 1).is_ok());
}

#[test]
fn manual_topup_rate_limit_is_hard() {
    let limits = RateLimits {
        max_amount_per_hour: None,
        max_amount_per_day: Some(100),
        max_amount_per_week: None,
        max_amount_per_month: None,
        max_amount_per_year: None,
    };
    let mut cfg = minter::model::ReserveConfig {
        account: ReserveAccount { owner: owner(1), subaccount: None },
        min_balance: 0,
        target_balance: 0,
        max_balance: None,
        max_topup_per_rebalance: None,
        lifetime_received_minimum: None,
        lifetime_received_maximum: None,
        rate_limits: Some(limits),
        enabled: true,
        allow_manual_topup: true,
        allow_auto_rebalance: true,
        purpose: String::new(),
        label: String::from("x"),
    };
    let events = vec![MintEvent { timestamp_ns: NANOS_PER_DAY, amount: 60 }];
    let t = topup(0, 50, None);
    let policy = GlobalPolicy::default();
    match validate_manual_topup_inputs(&t, &policy, &cfg, &60, &0, &events, NANOS_PER_DAY + 5) {
        Err(MinterError::RateLimitExceeded { window, limit, current_usage, requested }) => {
            assert_eq!(window, "day");
            assert_eq!(limit, 100);
            assert_eq!(current_usage, 60);
            assert_eq!(requested, 50);
        }
        other => panic!("unexpected {other:?}"),
    }
    cfg.rate_limits = None;
    assert!(validate_manual_topup_inputs(&t, &policy, &cfg, &60, &0, &events, NANOS_PER_DAY + 5).is_ok());
}

#[test]
fn manual_topup_lock_and_rollback() {
    let mut s = State::default();
    add_reserve_impl(&mut s, arg(1, "a")).unwrap();
    let t = topup(0, 5, Some("k"));
    manual_topup_begin(&mut s, &t).unwrap();
    assert!(matches!(
        manual_topup_begin(&mut s, &topup(0, 5, None)),
        Err(MinterError::ReserveOperationInProgress { id: 0 })
    ));
    rollback_manual_mint_begin(&mut s, 0, Some("k"));
    assert!(s.reserve_mint_inflight.is_empty());
    assert!(s.idempotency.is_empty());
    assert!(matches!(manual_topup_begin(&mut s, &t).unwrap(), ManualTopupBegin::Started(_)));
}

#[test]
fn manual_topup_unknown_reserve() {
    let mut s = State::default();
    assert!(matches!(
        manual_topup_begin(&mut s, &topup(4, 1, Some("k"))),
        Err(MinterError::ReserveNotFound { id: 4 })
    ));
    assert!(s.idempotency.is_empty());
}

#[test]
fn release_stuck_mint_state_rules() {
    let mut s = State::default();
    add_reserve_impl(&mut s, arg(1, "a")).unwrap();
    add_reserve_impl(&mut s, arg(2, "b")).unwrap();
    manual_topup_begin(&mut s, &topup(0, 5, Some("k"))).unwrap();
    let req = ReleaseStuckMintArg { reserve_id: 1, idempotency_key: Some(String::from("k")) };
    let e = release_stuck_mint_state_impl(&mut s, req.reserve_id, req.idempotency_key.as_deref())
        .unwrap_err();
    assert_eq!(invalid_reason(&e), "idempotency key is pending for a different reserve");
    assert_eq!(s.idempotency.len(), 1);
    release_stuck_mint_state_impl(&mut s, 0, Some("k")).unwrap();
    assert!(s.idempotency.is_empty());
    assert!(s.reserve_mint_inflight.is_empty());
    release_stuck_mint_state_impl(&mut s, 0, Some("unknown")).unwrap();
    release_stuck_mint_state_impl(&mut s, 0, None).unwrap();
}

// -- preview --------------------------------------------------------------------

#[test]
fn preview_reports_capped_amount_without_changing_state() {
    let mut s = State::default();
    let mut a = arg(1, "a");
    a.rate_limits = Some(RateLimits {
        max_amount_per_hour: Some(300),
        max_amount_per_day: None,
        max_amount_per_week: None,
        max_amount_per_month: None,
        max_amount_per_year: None,
    });
    a.lifetime_received_minimum = Some(800);
    add_reserve_impl(&mut s, a).unwrap();
    let snap = preview_begin(&s, 0).unwrap();
    let p = preview_outcome(0, &snap, 600, NANOS_PER_DAY).unwrap();
    assert_eq!(p.action, RebalanceAction::Minted);
    assert_eq!(p.current_balance, 600);
    assert_eq!(p.target_balance, 1000);
    assert_eq!(p.cyclical_deficit, 400);
    assert_eq!(p.lifetime_deficit, 800);
    assert_eq!(p.would_mint, 300);
    assert_eq!(p.rate_limit_budget, Some(300));
    assert!(s.reserve_mint_inflight.is_empty());
    assert!(matches!(preview_begin(&s, 5), Err(MinterError::ReserveNotFound { id: 5 })));
}

#[test]
fn preview_reports_exhausted_budget_as_skipped() {
    let mut s = State::default();
    let mut a = arg(1, "a");
    a.rate_limits = Some(RateLimits {
        max_amount_per_hour: Some(300),
        max_amount_per_day: None,
        max_amount_per_week: None,
        max_amount_per_month: None,
        max_amount_per_year: None,
    });
    add_reserve_impl(&mut s, a).unwrap();
    let mut snap = preview_begin(&s, 0).unwrap();
    snap.mint_events.push(MintEvent { timestamp_ns: NANOS_PER_DAY - 10, amount: 300 });
    let p = preview_outcome(0, &snap, 600, NANOS_PER_DAY).unwrap();
    assert_eq!(p.action, RebalanceAction::Skipped { reason: String::from("Rate limit budget exhausted") });
    assert_eq!(p.would_mint, 0);
    assert_eq!(p.rate_limit_budget, Some(0));
    assert_eq!(p.cyclical_deficit, 400);
    let mut s2 = State::default();
    add_reserve_impl(&mut s2, arg(1, "a")).unwrap();
    rebalance_begin(&mut s2, 0).unwrap();
    match rebalance_plan(&mut s2, 0, &snap, 600, NANOS_PER_DAY).unwrap() {
        RebalanceStep::Done(resp) => assert_eq!(resp.action, p.action),
        RebalanceStep::Mint { .. } => panic!("an exhausted budget must not mint"),
    }
}

// -- rate-limit helpers -------------------------------------------------------

#[test]
fn usage_counts_events_in_window_only() {
    let now = NANOS_PER_DAY * 3;
    let events = vec![
        MintEvent { timestamp_ns: now - NANOS_PER_DAY - 1, amount: 1000 },
        MintEvent { timestamp_ns: now - NANOS_PER_DAY, amount: 7 },
        MintEvent { timestamp_ns: now, amount: 5 },
    ];
    assert_eq!(usage_in_window(&events, now, NANOS_PER_DAY), 12);
    assert_eq!(usage_in_window(&events, now, NANOS_PER_HOUR), 5);
    assert_eq!(usage_in_window(&events, 10, NANOS_PER_DAY), 1012);
}

#[test]
fn budget_none_when_no_window_configured() {
    let limits = RateLimits {
        max_amount_per_hour: None,
        max_amount_per_day: None,
        max_amount_per_week: None,
        max_amount_per_month: None,
        max_amount_per_year: None,
    };
    assert_eq!(available_mint_budget(Some(&limits), &[], 5), None);
}

#[test]
fn positive_amount_passes_check_iff_within_budget() {
    let limits = RateLimits {
        max_amount_per_hour: Some(50),
        max_amount_per_day: Some(1000),
        max_amount_per_week: None,
        max_amount_per_month: None,
        max_amount_per_year: None,
    };
    let now = NANOS_PER_DAY;
    let events = vec![MintEvent { timestamp_ns: now - 1, amount: 20 }];
    let budget = available_mint_budget(Some(&limits), &events, now).unwrap();
    assert_eq!(budget, 30);
    assert!(check_rate_limits(&limits, &events, &30, now).is_ok());
    assert!(check_rate_limits(&limits, &events, &31, now).is_err());
}

#[test]
fn zero_amount_fails_check_when_window_overused() {
    let limits = RateLimits {
        max_amount_per_hour: Some(10),
        max_amount_per_day: None,
        max_amount_per_week: None,
        max_amount_per_month: None,
        max_amount_per_year: None,
    };
    let events = vec![MintEvent { timestamp_ns: 100, amount: 20 }];
    assert_eq!(available_mint_budget(Some(&limits), &events, 100), Some(0));
    assert!(check_rate_limits(&limits, &events, &0, 100).is_err());
}

#[test]
fn pruning_keeps_window_usage() {
    let now = NANOS_PER_YEAR * 2;
    let mut events = vec![
        MintEvent { timestamp_ns: NANOS_PER_YEAR - 1, amount: 5 },
        MintEvent { timestamp_ns: NANOS_PER_YEAR, amount: 6 },
        MintEvent { timestamp_ns: now, amount: 7 },
    ];
    let before = usage_in_window(&events, now, NANOS_PER_DAY);
    prune_old_events(&mut events, now);
    assert_eq!(events.len(), 2);
    assert_eq!(events[0].amount, 6);
    assert_eq!(usage_in_window(&events, now, NANOS_PER_DAY), before);
}

#[test]
fn validate_config_reports_first_rule() {
    let mut c = minter::model::ReserveConfig {
        account: ReserveAccount { owner: owner(1), subaccount: None },
        min_balance: 10,
        target_balance: 20,
        max_balance: Some(15),
        max_topup_per_rebalance: None,
        lifetime_received_minimum: Some(9),
        lifetime_received_maximum: Some(8),
        rate_limits: None,
        enabled: true,
        allow_manual_topup: true,
        allow_auto_rebalance: true,
        purpose: String::new(),
        label: String::from("l"),
    };
    let e = validate_reserve_config(&c).unwrap_err();
    assert_eq!(invalid_reason(&e), "target_balance must be <= max_balance");
    c.max_balance = None;
    let e = validate_reserve_config(&c).unwrap_err();
    assert_eq!(invalid_reason(&e), "lifetime_received_maximum must be >= lifetime_received_minimum");
    c.lifetime_received_maximum = None;
    assert!(validate_reserve_config(&c).is_ok());
}

// -- guards -----------------------------------------------------------------

#[test]
fn anonymous_caller_is_refused() {
    assert_eq!(
        caller_is_not_anonymous(&Principal::anonymous()),
        Err(String::from("anonymous callers are not allowed"))
    );
    assert_eq!(caller_is_not_anonymous(&owner(1)), Ok(()));
}

#[test]
fn controller_guard() {
    assert_eq!(caller_is_controller(true), Ok(()));
    assert_eq!(caller_is_controller(false), Err(String::from("caller is not a controller")));
}

// -- stable memory layout ----------------------------------------------------------

#[test]
fn length_prefix_round_trip() {
    let p = length_prefix(0x0102_0304);
    assert_eq!(p, [4, 3, 2, 1]);
    assert_eq!(decode_length_prefix(&p), 0x0102_0304);
    assert_eq!(decode_length_prefix(&length_prefix(u32::MAX)), u32::MAX);
}

#[test]
fn pages_to_grow_rounds_up() {
    assert_eq!(pages_to_grow(1, 0), 1);
    assert_eq!(pages_to_grow((PAGE_SIZE - 4) as u32, 0), 1);
    assert_eq!(pages_to_grow((PAGE_SIZE - 3) as u32, 0), 2);
    assert_eq!(pages_to_grow(10, 3), 0);
}

#[test]
fn restorable_len_checks() {
    assert_eq!(restorable_len(0, &length_prefix(10)), None);
    assert_eq!(restorable_len(1, &length_prefix(0)), None);
    assert_eq!(restorable_len(1, &length_prefix((PAGE_SIZE - 4) as u32)), Some((PAGE_SIZE - 4) as u32));
    assert_eq!(restorable_len(1, &length_prefix((PAGE_SIZE - 3) as u32)), None);
    let len = 200_000u32;
    let pages = pages_to_grow(len, 0);
    assert_eq!(restorable_len(pages, &length_prefix(len)), Some(len));
}

// -- memos --------------------------------------------------------------------------

#[test]
fn memos_name_reserve_and_key() {
    assert_eq!(rebalance_memo(0), "rebalance:0");
    assert_eq!(rebalance_memo(42), "rebalance:42");
    assert_eq!(rebalance_memo(u64::MAX), format!("rebalance:{}", u64::MAX));
    assert_eq!(topup_memo(7, None), "topup:7");
    assert_eq!(topup_memo(1_234_567_890, Some("abc")), "topup:1234567890:abc");
}

#[test]
fn well_formedness_check() {
    let mut s = State::default();
    add_reserve_impl(&mut s, arg(1, "a")).unwrap();
    add_reserve_impl(&mut s, arg(2, "b")).unwrap();
    assert!(s.is_well_formed());
    s.next_reserve_id = 1;
    assert!(!s.is_well_formed());
    s.next_reserve_id = 2;
    s.reserve_mint_inflight.insert(1);
    assert!(s.is_well_formed());
    let record = s.reserves.remove(&1).unwrap();
    s.reserves.insert(7, record);
    assert!(!s.is_well_formed());
}

#[test]
fn init_arg_sets_ledger_and_upgrade_does_not() {
    let mut s = State::default();
    assert!(!apply_init_arg(&mut s, &Arg::Upgrade));
    assert_eq!(s.ledger_id, Principal::anonymous());
    assert!(apply_init_arg(&mut s, &Arg::Init(InitArg { ledger_id: owner(9) })));
    assert_eq!(get_ledger_id(&s), owner(9));
}
