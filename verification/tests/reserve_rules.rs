//! Scenarios of the reserve rules: configuration validation, rate-limit
//! accounting, event pruning and the rebalance computation.
use candid::Principal;

use minter::model::{
    GlobalPolicy, MintEvent, MinterError, RateLimits, RebalanceAction, ReserveAccount,
    ReserveConfig,
};
use minter::reserve::{
    available_mint_budget, check_rate_limits, compute_rebalance, prune_old_events,
    validate_balance_invariants, validate_rate_limits, NANOS_PER_DAY, NANOS_PER_HOUR,
    NANOS_PER_WEEK,
};

fn sample_config() -> ReserveConfig {
    ReserveConfig {
        account: ReserveAccount {
            owner: Principal::anonymous(),
            subaccount: None,
        },
        min_balance: 100,
        target_balance: 1000,
        max_balance: None,
        max_topup_per_rebalance: None,
        lifetime_received_minimum: None,
        lifetime_received_maximum: None,
        rate_limits: None,
        enabled: true,
        allow_manual_topup: true,
        allow_auto_rebalance: true,
        purpose: String::from("testing"),
        label: String::from("Test Reserve"),
    }
}

fn sample_policy() -> GlobalPolicy {
    GlobalPolicy {
        minting_enabled: true,
        max_mint_per_operation: None,
    }
}

// -- balance validation --------------------------------------------------

#[test]
fn valid_invariants_accepted() {
    let r = validate_balance_invariants(
        &100,
        &1000,
        Some(&5000),
        None,
        None,
        "ok",
    );
    assert!(r.is_ok());
}

#[test]
fn rejects_min_greater_than_target() {
    let r = validate_balance_invariants(
        &2000,
        &1000,
        None,
        None,
        None,
        "ok",
    );
    assert!(r.is_err());
}

#[test]
fn rejects_target_greater_than_max() {
    let r = validate_balance_invariants(
        &100,
        &1000,
        Some(&500),
        None,
        None,
        "ok",
    );
    assert!(r.is_err());
}

#[test]
fn rejects_empty_label() {
    let r = validate_balance_invariants(
        &100,
        &1000,
        None,
        None,
        None,
        "",
    );
    assert!(r.is_err());
}

#[test]
fn valid_lifetime_min_max_pair() {
    let r = validate_balance_invariants(
        &100,
        &1000,
        None,
        Some(&500),
        Some(&5000),
        "ok",
    );
    assert!(r.is_ok());
}

#[test]
fn rejects_lifetime_max_below_min() {
    let r = validate_balance_invariants(
        &100,
        &1000,
        None,
        Some(&5000),
        Some(&1000),
        "ok",
    );
    assert!(r.is_err());
}

// -- rate-limit validation -----------------------------------------------

#[test]
fn valid_decreasing_rate_limits() {
    let limits = RateLimits {
        max_amount_per_hour: Some(100),
        max_amount_per_day: Some(2000), // 2000/24 ≈ 83 < 100
        max_amount_per_week: Some(10000), // 10000/168 ≈ 60 < 83
        max_amount_per_month: None,
        max_amount_per_year: Some(100_000), // 100000/8760 ≈ 11 < 60
    };
    assert!(validate_rate_limits(&limits).is_ok());
}

#[test]
fn rejects_non_decreasing_rate_limits() {
    let limits = RateLimits {
        max_amount_per_hour: Some(100),
        max_amount_per_day: Some(2400), // 2400/24 = 100, not strictly less
        max_amount_per_week: None,
        max_amount_per_month: None,
        max_amount_per_year: None,
    };
    assert!(validate_rate_limits(&limits).is_err());
}

#[test]
fn rejects_increasing_rate_limits() {
    let limits = RateLimits {
        max_amount_per_hour: Some(100),
        max_amount_per_day: Some(3000), // 3000/24 = 125 > 100
        max_amount_per_week: None,
        max_amount_per_month: None,
        max_amount_per_year: None,
    };
    assert!(validate_rate_limits(&limits).is_err());
}

#[test]
fn single_window_always_valid() {
    let limits = RateLimits {
        max_amount_per_hour: None,
        max_amount_per_day: Some(1000),
        max_amount_per_week: None,
        max_amount_per_month: None,
        max_amount_per_year: None,
    };
    assert!(validate_rate_limits(&limits).is_ok());
}

#[test]
fn non_adjacent_windows_validated() {
    let limits = RateLimits {
        max_amount_per_hour: Some(100),
        max_amount_per_day: None,
        max_amount_per_week: None,
        max_amount_per_month: None,
        max_amount_per_year: Some(800), // 800/8760 ≈ 0.09 < 100
    };
    assert!(validate_rate_limits(&limits).is_ok());
}

// -- available_mint_budget -----------------------------------------------

#[test]
fn budget_no_limits_returns_none() {
    assert!(available_mint_budget(None, &[], 1_000_000).is_none());
}

#[test]
fn budget_no_events_returns_full_limit() {
    let limits = RateLimits {
        max_amount_per_hour: Some(500),
        max_amount_per_day: None,
        max_amount_per_week: None,
        max_amount_per_month: None,
        max_amount_per_year: None,
    };
    let budget = available_mint_budget(Some(&limits), &[], NANOS_PER_HOUR * 2);
    assert_eq!(budget, Some(500));
}

#[test]
fn budget_partially_used() {
    let limits = RateLimits {
        max_amount_per_hour: Some(500),
        max_amount_per_day: None,
        max_amount_per_week: None,
        max_amount_per_month: None,
        max_amount_per_year: None,
    };
    let now = NANOS_PER_HOUR * 2;
    let events = vec![MintEvent {
        timestamp_ns: now - NANOS_PER_HOUR / 2,
        amount: 200,
    }];
    let budget = available_mint_budget(Some(&limits), &events, now);
    assert_eq!(budget, Some(300));
}

#[test]
fn budget_exhausted() {
    let limits = RateLimits {
        max_amount_per_hour: Some(500),
        max_amount_per_day: None,
        max_amount_per_week: None,
        max_amount_per_month: None,
        max_amount_per_year: None,
    };
    let now = NANOS_PER_HOUR * 2;
    let events = vec![MintEvent {
        timestamp_ns: now - 100,
        amount: 600,
    }];
    let budget = available_mint_budget(Some(&limits), &events, now);
    assert_eq!(budget, Some(0));
}

#[test]
fn budget_uses_tightest_window() {
    let limits = RateLimits {
        max_amount_per_hour: Some(500),
        max_amount_per_day: Some(800),
        max_amount_per_week: None,
        max_amount_per_month: None,
        max_amount_per_year: None,
    };
    let now = NANOS_PER_DAY * 2;
    let events = vec![MintEvent {
        timestamp_ns: now - NANOS_PER_HOUR / 2,
        amount: 100,
    }];
    let budget = available_mint_budget(Some(&limits), &events, now);
    assert_eq!(budget, Some(400));
}

#[test]
fn old_events_outside_window_ignored() {
    let limits = RateLimits {
        max_amount_per_hour: Some(500),
        max_amount_per_day: None,
        max_amount_per_week: None,
        max_amount_per_month: None,
        max_amount_per_year: None,
    };
    let now = NANOS_PER_DAY;
    let events = vec![MintEvent {
        timestamp_ns: now - NANOS_PER_HOUR * 2,
        amount: 9999,
    }];
    let budget = available_mint_budget(Some(&limits), &events, now);
    assert_eq!(budget, Some(500));
}

// -- check_rate_limits ---------------------------------------------------

#[test]
fn check_passes_when_within_budget() {
    let limits = RateLimits {
        max_amount_per_hour: Some(500),
        max_amount_per_day: None,
        max_amount_per_week: None,
        max_amount_per_month: None,
        max_amount_per_year: None,
    };
    let r = check_rate_limits(&limits, &[], &400, NANOS_PER_HOUR * 2);
    assert!(r.is_ok());
}

#[test]
fn check_fails_when_exceeds_budget() {
    let limits = RateLimits {
        max_amount_per_hour: Some(500),
        max_amount_per_day: None,
        max_amount_per_week: None,
        max_amount_per_month: None,
        max_amount_per_year: None,
    };
    let r = check_rate_limits(&limits, &[], &600, NANOS_PER_HOUR * 2);
    assert!(matches!(r, Err(MinterError::RateLimitExceeded { .. })));
}

#[test]
fn check_accounts_for_existing_usage() {
    let limits = RateLimits {
        max_amount_per_hour: Some(500),
        max_amount_per_day: None,
        max_amount_per_week: None,
        max_amount_per_month: None,
        max_amount_per_year: None,
    };
    let now = NANOS_PER_HOUR * 2;
    let events = vec![MintEvent {
        timestamp_ns: now - 100,
        amount: 400,
    }];
    let r = check_rate_limits(&limits, &events, &200, now);
    assert!(matches!(r, Err(MinterError::RateLimitExceeded { .. })));
}

// -- prune ---------------------------------------------------------------

#[test]
fn prune_removes_old_events() {
    let now = NANOS_PER_WEEK * 100;
    let mut events = vec![
        MintEvent {
            timestamp_ns: 1,
            amount: 10,
        },
        MintEvent {
            timestamp_ns: now - NANOS_PER_DAY,
            amount: 20,
        },
    ];
    prune_old_events(&mut events, now);
    assert_eq!(events.len(), 1);
    assert_eq!(events[0].amount, 20);
}

// -- compute_rebalance (cyclical only) -----------------------------------

#[test]
fn already_funded_when_at_target() {
    let c = sample_config();
    let p = sample_policy();
    let r = compute_rebalance(&c, &1000, &0, &p).unwrap();
    assert_eq!(r.action, RebalanceAction::AlreadyFunded);
    assert_eq!(r.mint_amount, 0);
}

#[test]
fn already_funded_when_above_target() {
    let c = sample_config();
    let p = sample_policy();
    let r = compute_rebalance(&c, &2000, &0, &p).unwrap();
    assert_eq!(r.action, RebalanceAction::AlreadyFunded);
}

#[test]
fn mints_full_deficit() {
    let c = sample_config();
    let p = sample_policy();
    let r = compute_rebalance(&c, &300, &0, &p).unwrap();
    assert_eq!(r.action, RebalanceAction::Minted);
    assert_eq!(r.mint_amount, 700);
}

#[test]
fn caps_at_max_topup_per_rebalance() {
    let mut c = sample_config();
    c.max_topup_per_rebalance = Some(200);
    let p = sample_policy();
    let r = compute_rebalance(&c, &300, &0, &p).unwrap();
    assert_eq!(r.action, RebalanceAction::Minted);
    assert_eq!(r.mint_amount, 200);
}

#[test]
fn caps_at_max_balance_room() {
    let mut c = sample_config();
    c.target_balance = 500;
    c.max_balance = Some(500);
    let p = sample_policy();
    let r = compute_rebalance(&c, &300, &0, &p).unwrap();
    assert_eq!(r.action, RebalanceAction::Minted);
    assert_eq!(r.mint_amount, 200);
}

#[test]
fn caps_at_policy_max_per_operation() {
    let c = sample_config();
    let mut p = sample_policy();
    p.max_mint_per_operation = Some(100);
    let r = compute_rebalance(&c, &300, &0, &p).unwrap();
    assert_eq!(r.action, RebalanceAction::Minted);
    assert_eq!(r.mint_amount, 100);
}

#[test]
fn skips_disabled_reserve() {
    let mut c = sample_config();
    c.enabled = false;
    let p = sample_policy();
    let r = compute_rebalance(&c, &0, &0, &p).unwrap();
    assert!(matches!(r.action, RebalanceAction::Skipped { .. }));
}

#[test]
fn skips_when_auto_rebalance_off() {
    let mut c = sample_config();
    c.allow_auto_rebalance = false;
    let p = sample_policy();
    let r = compute_rebalance(&c, &0, &0, &p).unwrap();
    assert!(matches!(r.action, RebalanceAction::Skipped { .. }));
}

#[test]
fn errors_when_minting_disabled() {
    let c = sample_config();
    let mut p = sample_policy();
    p.minting_enabled = false;
    let r = compute_rebalance(&c, &0, &0, &p);
    assert!(r.is_err());
}

#[test]
fn skips_when_max_topup_is_zero() {
    let mut c = sample_config();
    c.max_topup_per_rebalance = Some(0);
    let p = sample_policy();
    let r = compute_rebalance(&c, &300, &0, &p).unwrap();
    assert!(matches!(r.action, RebalanceAction::Skipped { .. }));
}

#[test]
fn mints_from_zero_to_target() {
    let c = sample_config();
    let p = sample_policy();
    let r = compute_rebalance(&c, &0, &0, &p).unwrap();
    assert_eq!(r.action, RebalanceAction::Minted);
    assert_eq!(r.mint_amount, 1000);
}

// -- compute_rebalance (lifetime guarantee) ------------------------------

#[test]
fn lifetime_deficit_drives_mint_when_balance_at_target() {
    let mut c = sample_config();
    c.lifetime_received_minimum = Some(5000);
    let p = sample_policy();
    let r = compute_rebalance(&c, &1000, &500, &p).unwrap();
    assert_eq!(r.action, RebalanceAction::Minted);
    assert_eq!(r.mint_amount, 4500);
    assert_eq!(r.cyclical_deficit, 0);
    assert_eq!(r.lifetime_deficit, 4500);
}

#[test]
fn cyclical_wins_when_larger_than_lifetime() {
    let mut c = sample_config();
    c.lifetime_received_minimum = Some(200);
    let p = sample_policy();
    let r = compute_rebalance(&c, &300, &100, &p).unwrap();
    assert_eq!(r.action, RebalanceAction::Minted);
    assert_eq!(r.mint_amount, 700);
}

#[test]
fn lifetime_wins_when_larger_than_cyclical() {
    let mut c = sample_config();
    c.lifetime_received_minimum = Some(5000);
    let p = sample_policy();
    let r = compute_rebalance(&c, &300, &0, &p).unwrap();
    assert_eq!(r.action, RebalanceAction::Minted);
    assert_eq!(r.mint_amount, 5000);
}

#[test]
fn lifetime_satisfied_no_extra_mint() {
    let mut c = sample_config();
    c.lifetime_received_minimum = Some(1000);
    let p = sample_policy();
    let r = compute_rebalance(&c, &1000, &1000, &p).unwrap();
    assert_eq!(r.action, RebalanceAction::AlreadyFunded);
}

#[test]
fn lifetime_capped_by_max_balance() {
    let mut c = sample_config();
    c.lifetime_received_minimum = Some(5000);
    c.max_balance = Some(2000);
    let p = sample_policy();
    let r = compute_rebalance(&c, &1000, &0, &p).unwrap();
    assert_eq!(r.action, RebalanceAction::Minted);
    assert_eq!(r.mint_amount, 1000);
}

#[test]
fn no_lifetime_set_behaves_as_before() {
    let c = sample_config();
    let p = sample_policy();
    let r = compute_rebalance(&c, &300, &9999, &p).unwrap();
    assert_eq!(r.mint_amount, 700);
}

// -- compute_rebalance (lifetime maximum cap) ----------------------------

#[test]
fn lifetime_max_caps_mint_amount() {
    let mut c = sample_config();
    c.lifetime_received_maximum = Some(800);
    let p = sample_policy();
    let r = compute_rebalance(&c, &300, &500, &p).unwrap();
    assert_eq!(r.action, RebalanceAction::Minted);
    assert_eq!(r.mint_amount, 300);
}

#[test]
fn lifetime_max_reached_skips() {
    let mut c = sample_config();
    c.lifetime_received_maximum = Some(500);
    let p = sample_policy();
    let r = compute_rebalance(&c, &300, &500, &p).unwrap();
    assert!(matches!(r.action, RebalanceAction::Skipped { .. }));
    assert_eq!(r.mint_amount, 0);
}

#[test]
fn lifetime_max_exceeded_skips() {
    let mut c = sample_config();
    c.lifetime_received_maximum = Some(500);
    let p = sample_policy();
    let r = compute_rebalance(&c, &300, &600, &p).unwrap();
    assert!(matches!(r.action, RebalanceAction::Skipped { .. }));
}

#[test]
fn lifetime_max_no_impact_when_plenty_of_budget() {
    let mut c = sample_config();
    c.lifetime_received_maximum = Some(99999);
    let p = sample_policy();
    let r = compute_rebalance(&c, &300, &0, &p).unwrap();
    assert_eq!(r.action, RebalanceAction::Minted);
    assert_eq!(r.mint_amount, 700);
}

