//! Properties of the minter that hold across its operations.
use vstd::prelude::*;

use crate::admin::{added_reserve, apply_update, lowers_lifetime_minimum, pending_for};
use crate::mint::{events_after_mint, key_record, opt_key, replay_response, topup_precheck};
use crate::model::{
    GlobalPolicy, IdempotencyEntry, IdempotencyRecord, MintEvent, MinterError, RateLimits,
    RebalanceActionView, ReserveConfig, ReserveRecord,
};
use crate::params::{ManualTopupArg, ManualTopupResponse, UpdateReserveArg};
use crate::reserve::{
    NANOS_PER_DAY, NANOS_PER_HOUR, NANOS_PER_MONTH, NANOS_PER_WEEK, NANOS_PER_YEAR,
    config_error, config_valid, configured_windows, cyclical_deficit, lifetime_deficit, mint_budget, planned_rebalance,
    progressive, push_window, rate_limit_breach, recent, recent_at, remaining_in_window, stricter,
    tighter, usage_in, window_exceeded, window_start,
};
use crate::stable::{PAGE_SIZE, PREFIX_LEN, le_bytes, le_value, pages_needed, restored_len};
use crate::state::{State, keeps_completed_keys, lemma_key_map_at};

verus! {

// ---------------------------------------------------------------------------
// Rebalance caps
// ---------------------------------------------------------------------------

/// A rebalance mints only when minting is enabled and the reserve allows
/// it, never more than `max_topup_per_rebalance` or the policy's
/// per-operation cap, never past `max_balance` or
/// `lifetime_received_maximum`, and never more than the larger deficit;
/// with none of these caps set it mints exactly the larger deficit.  Any
/// outcome other than `Minted` mints nothing.
pub proof fn law_rebalance_respects_caps(
    config: ReserveConfig,
    balance: u64,
    minted: u64,
    policy: GlobalPolicy,
)
    ensures
        !policy.minting_enabled ==> planned_rebalance(config, balance, minted, policy) == Err::<
            crate::model::ComputedRebalanceView,
            MinterError,
        >(MinterError::MintingDisabled),
        planned_rebalance(config, balance, minted, policy) matches Ok(c) ==> {
            let cd = cyclical_deficit(config.target_balance, balance);
            let ld = lifetime_deficit(config.lifetime_received_minimum, minted);
            &&& c.action is Minted <==> c.mint_amount > 0
            &&& c.mint_amount > 0 ==> policy.minting_enabled && config.enabled
                && config.allow_auto_rebalance
            &&& c.mint_amount <= if ld > cd {
                ld
            } else {
                cd
            }
            &&& config.max_topup_per_rebalance matches Some(t) ==> c.mint_amount <= t
            &&& config.max_balance is Some && c.mint_amount > 0 ==> balance + c.mint_amount
                <= config.max_balance->0
            &&& config.lifetime_received_maximum is Some && c.mint_amount > 0 ==> minted
                + c.mint_amount <= config.lifetime_received_maximum->0
            &&& policy.max_mint_per_operation matches Some(p) ==> c.mint_amount <= p
            &&& (config.enabled && config.allow_auto_rebalance
                && config.max_topup_per_rebalance is None && config.max_balance is None
                && config.lifetime_received_maximum is None && policy.max_mint_per_operation is None)
                ==> c.mint_amount == if ld > cd {
                ld
            } else {
                cd
            }
        },
{
}

/// A manual top-up that passes its checks mints only when minting is
/// enabled and the reserve allows manual top-ups, never more than the
/// policy's per-operation cap, and never pushes the reserve past
/// `lifetime_received_maximum` or its balance past `max_balance`.
pub proof fn law_topup_respects_caps(
    id: u64,
    amount: u64,
    policy: GlobalPolicy,
    config: ReserveConfig,
    minted: u64,
    balance: u64,
)
    requires
        topup_precheck(id, amount, policy, config, minted, balance) is None,
    ensures
        policy.minting_enabled && config.enabled && config.allow_manual_topup,
        policy.max_mint_per_operation matches Some(p) ==> amount <= p,
        config.lifetime_received_maximum matches Some(lm) ==> minted + amount <= lm,
        config.max_balance matches Some(mb) ==> balance + amount <= mb,
{
}

/// For an enabled reserve that allows automatic rebalancing, with minting
/// enabled, a rebalance reports the two deficits (target minus balance,
/// lifetime minimum minus lifetime total, each at least zero) and mints the
/// larger of them lowered to the smallest configured cap: the per-rebalance
/// top-up cap, the room below `max_balance`, the room below
/// `lifetime_received_maximum` and the policy's per-operation cap, in every
/// combination of caps.  It reports `Minted` exactly when that amount is
/// positive.
pub proof fn law_rebalance_amount(
    config: ReserveConfig,
    balance: u64,
    minted: u64,
    policy: GlobalPolicy,
)
    requires
        policy.minting_enabled,
        config.enabled,
        config.allow_auto_rebalance,
    ensures
        planned_rebalance(config, balance, minted, policy) matches Ok(c) && {
            let cd: int = if balance < config.target_balance {
                config.target_balance - balance
            } else {
                0
            };
            let ld: int = match config.lifetime_received_minimum {
                Some(m) => if minted < m {
                    m - minted
                } else {
                    0
                },
                None => 0,
            };
            let want: int = if cd < ld {
                ld
            } else {
                cd
            };
            let topup: int = match config.max_topup_per_rebalance {
                Some(t) => t as int,
                None => want,
            };
            let room_b: int = match config.max_balance {
                Some(mb) => if balance < mb {
                    mb - balance
                } else {
                    0
                },
                None => want,
            };
            let room_l: int = match config.lifetime_received_maximum {
                Some(lm) => if minted < lm {
                    lm - minted
                } else {
                    0
                },
                None => want,
            };
            let per_op: int = match policy.max_mint_per_operation {
                Some(p) => p as int,
                None => want,
            };
            &&& c.cyclical_deficit == cd
            &&& c.lifetime_deficit == ld
            &&& c.mint_amount <= want
            &&& c.mint_amount <= topup
            &&& c.mint_amount <= room_b
            &&& c.mint_amount <= room_l
            &&& c.mint_amount <= per_op
            &&& (c.mint_amount == want || c.mint_amount == topup || c.mint_amount == room_b
                || c.mint_amount == room_l || c.mint_amount == per_op)
            &&& (c.action is Minted <==> c.mint_amount > 0)
        },
{
}

/// Why a rebalance mints nothing.  With minting disabled it is refused;
/// a disabled reserve, or one that forbids automatic rebalancing, is
/// skipped with zero deficits.  Otherwise, with no deficit the reserve is
/// already funded; with a deficit, a balance at or above `max_balance` and
/// then a lifetime total at or above `lifetime_received_maximum` skip it
/// with their own reasons, and caps that leave nothing skip it as capped to
/// zero.
pub proof fn law_rebalance_outcomes(
    config: ReserveConfig,
    balance: u64,
    minted: u64,
    policy: GlobalPolicy,
)
    ensures
        !policy.minting_enabled ==> planned_rebalance(config, balance, minted, policy) == Err::<
            crate::model::ComputedRebalanceView,
            MinterError,
        >(MinterError::MintingDisabled),
        policy.minting_enabled && !config.enabled ==> (planned_rebalance(config, balance, minted, policy)
            matches Ok(c) && c.mint_amount == 0 && c.cyclical_deficit == 0 && c.lifetime_deficit == 0
            && c.action == (RebalanceActionView::Skipped { reason: "Reserve is disabled"@ })),
        policy.minting_enabled && config.enabled && !config.allow_auto_rebalance ==> (planned_rebalance(
            config,
            balance,
            minted,
            policy,
        ) matches Ok(c) && c.mint_amount == 0 && c.cyclical_deficit == 0 && c.lifetime_deficit == 0
            && c.action == (RebalanceActionView::Skipped {
            reason: "Auto-rebalance not allowed for this reserve"@,
        })),
        policy.minting_enabled && config.enabled && config.allow_auto_rebalance ==> ({
            let no_deficit = balance >= config.target_balance && (
            config.lifetime_received_minimum matches Some(m) ==> minted >= m);
            let full = config.max_balance matches Some(mb) && balance >= mb;
            let exhausted = config.lifetime_received_maximum matches Some(lm) && minted >= lm;
            planned_rebalance(config, balance, minted, policy) matches Ok(c) && {
                &&& no_deficit ==> c.action is AlreadyFunded
                &&& !no_deficit && full ==> c.action == (RebalanceActionView::Skipped {
                    reason: "Balance already at or above max_balance"@,
                })
                &&& !no_deficit && !full && exhausted ==> c.action == (RebalanceActionView::Skipped {
                    reason: "Lifetime maximum already reached"@,
                })
                &&& !no_deficit && !full && !exhausted && c.mint_amount == 0 ==> c.action == (
                RebalanceActionView::Skipped {
                    reason: "Amount capped to zero by policy or config limits"@,
                })
            }
        }),
{
}

/// A manual top-up passes the checks that do not depend on the mint
/// history whenever minting is enabled, the reserve is enabled and allows
/// manual top-ups, and the amount stays within the policy's per-operation
/// cap, the lifetime maximum and the balance cap; nothing else (such as
/// the automatic-rebalance flag) enters.  A reserve that is enabled but
/// forbids manual top-ups is refused with `ManualTopupNotAllowed`.
pub proof fn law_topup_checks_complete(
    id: u64,
    amount: u64,
    policy: GlobalPolicy,
    config: ReserveConfig,
    minted: u64,
    balance: u64,
    auto: bool,
)
    ensures
        (policy.minting_enabled && config.enabled && config.allow_manual_topup
            && (policy.max_mint_per_operation matches Some(p) ==> amount <= p)
            && (config.lifetime_received_maximum matches Some(lm) ==> minted + amount <= lm)
            && (config.max_balance matches Some(mb) ==> balance + amount <= mb)) ==> topup_precheck(
            id,
            amount,
            policy,
            config,
            minted,
            balance,
        ) is None,
        topup_precheck(id, amount, policy, config, minted, balance) == topup_precheck(
            id,
            amount,
            policy,
            (ReserveConfig { allow_auto_rebalance: auto, ..config }),
            minted,
            balance,
        ),
        policy.minting_enabled && config.enabled && !config.allow_manual_topup ==> topup_precheck(
            id,
            amount,
            policy,
            config,
            minted,
            balance,
        ) == Some(MinterError::ManualTopupNotAllowed { id }),
{
}

// ---------------------------------------------------------------------------
// Rate limits
// ---------------------------------------------------------------------------

/// Strictness of rates is transitive.
pub proof fn lemma_stricter_transitive(a: (u64, u64), b: (u64, u64), c: (u64, u64))
    requires
        a.0 > 0,
        b.0 > 0,
        c.0 > 0,
        stricter(a, b),
        stricter(b, c),
    ensures
        stricter(a, c),
{
    let (a0, a1, b0, b1, c0, c1) = (a.0 as int, a.1 as int, b.0 as int, b.1 as int, c.0 as int, c.1 as int);
    assert(b1 * a0 * c0 < a1 * b0 * c0) by (nonlinear_arith)
        requires
            b1 * a0 < a1 * b0,
            c0 > 0,
    ;
    assert(c1 * b0 * a0 < b1 * c0 * a0) by (nonlinear_arith)
        requires
            c1 * b0 < b1 * c0,
            a0 > 0,
    ;
    assert(c1 * a0 < a1 * c0) by (nonlinear_arith)
        requires
            b1 * a0 * c0 < a1 * b0 * c0,
            c1 * b0 * a0 < b1 * c0 * a0,
            b0 > 0,
    ;
}

proof fn lemma_push_window_positive(ws: Seq<(u64, u64)>, hours: u64, limit: Option<u64>)
    requires
        hours > 0,
        forall|i: int| 0 <= i < ws.len() ==> (#[trigger] ws[i]).0 > 0,
    ensures
        forall|i: int|
            0 <= i < push_window(ws, hours, limit).len() ==> (#[trigger] push_window(
                ws,
                hours,
                limit,
            )[i]).0 > 0,
{
    if limit is Some {
        assert forall|i: int| 0 <= i < push_window(ws, hours, limit).len() implies (
        #[trigger] push_window(ws, hours, limit)[i]).0 > 0 by {
            if i < ws.len() {
                assert(push_window(ws, hours, limit)[i] == ws[i]);
            }
        }
    }
}

proof fn lemma_windows_positive(limits: RateLimits)
    ensures
        forall|i: int|
            0 <= i < configured_windows(limits).len() ==> (
            #[trigger] configured_windows(limits)[i]).0 > 0,
{
    let w0 = Seq::<(u64, u64)>::empty();
    let w1 = push_window(w0, 1, limits.max_amount_per_hour);
    lemma_push_window_positive(w0, 1, limits.max_amount_per_hour);
    let w2 = push_window(w1, 24, limits.max_amount_per_day);
    lemma_push_window_positive(w1, 24, limits.max_amount_per_day);
    let w3 = push_window(w2, 168, limits.max_amount_per_week);
    lemma_push_window_positive(w2, 168, limits.max_amount_per_week);
    let w4 = push_window(w3, 720, limits.max_amount_per_month);
    lemma_push_window_positive(w3, 720, limits.max_amount_per_month);
    lemma_push_window_positive(w4, 8760, limits.max_amount_per_year);
}

proof fn lemma_progressive_chain(ws: Seq<(u64, u64)>, i: int, j: int)
    requires
        progressive(ws),
        forall|k: int| 0 <= k < ws.len() ==> (#[trigger] ws[k]).0 > 0,
        0 <= i < j < ws.len(),
    ensures
        stricter(ws[i], ws[j]),
    decreases j - i,
{
    if j == i + 1 {
        assert(stricter(ws[i], ws[j]));
    } else {
        lemma_progressive_chain(ws, i, j - 1);
        assert(stricter(ws[j - 1], ws[j]));
        assert(ws[i].0 > 0 && ws[j - 1].0 > 0 && ws[j].0 > 0);
        lemma_stricter_transitive(ws[i], ws[j - 1], ws[j]);
    }
}

/// Rate limits that pass validation allow a strictly lower rate in every
/// larger configured window than in every smaller one, not only in the
/// next one.
pub proof fn law_validated_limits_stricter_for_all_larger_windows(limits: RateLimits)
    requires
        progressive(configured_windows(limits)),
    ensures
        forall|i: int, j: int|
            0 <= i < j < configured_windows(limits).len() ==> stricter(
                #[trigger] configured_windows(limits)[i],
                #[trigger] configured_windows(limits)[j],
            ),
{
    let ws = configured_windows(limits);
    lemma_windows_positive(limits);
    assert forall|i: int, j: int| 0 <= i < j < ws.len() implies stricter(
        #[trigger] ws[i],
        #[trigger] ws[j],
    ) by {
        lemma_progressive_chain(ws, i, j);
    }
}

/// The amount fits a budget (no budget means no limit).
pub open spec fn within(budget: Option<u64>, amount: u64) -> bool {
    match budget {
        Some(b) => amount <= b,
        None => true,
    }
}

proof fn lemma_within_tighter(b: Option<u64>, r: Option<u64>, amount: u64)
    ensures
        within(tighter(b, r), amount) <==> within(b, amount) && within(r, amount),
{
}

proof fn lemma_within_window(
    limit: Option<u64>,
    events: Seq<MintEvent>,
    now_ns: u64,
    window_ns: u64,
    amount: u64,
)
    requires
        amount > 0,
    ensures
        within(remaining_in_window(limit, events, now_ns, window_ns), amount) <==> !window_exceeded(
            limit,
            events,
            now_ns,
            window_ns,
            amount,
        ),
{
}

/// For a positive amount, the hard rate-limit check of manual top-ups
/// passes exactly when the amount fits the budget that rebalances use.
/// (An amount of zero can fail the check while fitting a zero budget, when
/// some window is already over its cap.)
pub proof fn law_rate_limit_check_agrees_with_budget(
    limits: RateLimits,
    events: Seq<MintEvent>,
    amount: u64,
    now_ns: u64,
)
    requires
        amount > 0,
    ensures
        rate_limit_breach(limits, events, amount, now_ns) is None <==> within(
            mint_budget(Some(limits), events, now_ns),
            amount,
        ),
{
    let l = limits;
    let rh = remaining_in_window(l.max_amount_per_hour, events, now_ns, NANOS_PER_HOUR);
    let rd = remaining_in_window(l.max_amount_per_day, events, now_ns, NANOS_PER_DAY);
    let rw = remaining_in_window(l.max_amount_per_week, events, now_ns, NANOS_PER_WEEK);
    let rm = remaining_in_window(l.max_amount_per_month, events, now_ns, NANOS_PER_MONTH);
    let ry = remaining_in_window(l.max_amount_per_year, events, now_ns, NANOS_PER_YEAR);
    lemma_within_tighter(None, rh, amount);
    lemma_within_tighter(tighter(None, rh), rd, amount);
    lemma_within_tighter(tighter(tighter(None, rh), rd), rw, amount);
    lemma_within_tighter(tighter(tighter(tighter(None, rh), rd), rw), rm, amount);
    lemma_within_tighter(tighter(tighter(tighter(tighter(None, rh), rd), rw), rm), ry, amount);
    lemma_within_window(l.max_amount_per_hour, events, now_ns, NANOS_PER_HOUR, amount);
    lemma_within_window(l.max_amount_per_day, events, now_ns, NANOS_PER_DAY, amount);
    lemma_within_window(l.max_amount_per_week, events, now_ns, NANOS_PER_WEEK, amount);
    lemma_within_window(l.max_amount_per_month, events, now_ns, NANOS_PER_MONTH, amount);
    lemma_within_window(l.max_amount_per_year, events, now_ns, NANOS_PER_YEAR, amount);
}

/// A mint made now counts in every window that ends now.
pub proof fn lemma_usage_after_mint(events: Seq<MintEvent>, now_ns: u64, window_ns: u64, amount: u64)
    ensures
        usage_in(events.push(MintEvent { timestamp_ns: now_ns, amount }), now_ns, window_ns)
            == usage_in(events, now_ns, window_ns) + amount,
{
    let n = events.push(MintEvent { timestamp_ns: now_ns, amount });
    assert(n.drop_last() =~= events);
}

/// Minting a positive amount within the budget keeps every configured
/// window within its cap.
pub proof fn law_budgeted_mint_stays_within_caps(
    limits: RateLimits,
    events: Seq<MintEvent>,
    amount: u64,
    now_ns: u64,
)
    requires
        amount > 0,
        within(mint_budget(Some(limits), events, now_ns), amount),
    ensures
        ({
            let after = events.push(MintEvent { timestamp_ns: now_ns, amount });
            &&& limits.max_amount_per_hour matches Some(c) ==> usage_in(after, now_ns, NANOS_PER_HOUR)
                <= c
            &&& limits.max_amount_per_day matches Some(c) ==> usage_in(after, now_ns, NANOS_PER_DAY)
                <= c
            &&& limits.max_amount_per_week matches Some(c) ==> usage_in(after, now_ns, NANOS_PER_WEEK)
                <= c
            &&& limits.max_amount_per_month matches Some(c) ==> usage_in(
                after,
                now_ns,
                NANOS_PER_MONTH,
            ) <= c
            &&& limits.max_amount_per_year matches Some(c) ==> usage_in(after, now_ns, NANOS_PER_YEAR)
                <= c
        }),
{
    law_rate_limit_check_agrees_with_budget(limits, events, amount, now_ns);
    lemma_usage_after_mint(events, now_ns, NANOS_PER_HOUR, amount);
    lemma_usage_after_mint(events, now_ns, NANOS_PER_DAY, amount);
    lemma_usage_after_mint(events, now_ns, NANOS_PER_WEEK, amount);
    lemma_usage_after_mint(events, now_ns, NANOS_PER_MONTH, amount);
    lemma_usage_after_mint(events, now_ns, NANOS_PER_YEAR, amount);
}

/// Dropping events older than a year changes no window's usage (every
/// window is at most a year long), and what is kept is recent.
pub proof fn law_pruning_keeps_window_usage(events: Seq<MintEvent>, now_ns: u64, window_ns: u64)
    requires
        window_ns <= NANOS_PER_YEAR,
    ensures
        usage_in(events.filter(recent_at(now_ns)), now_ns, window_ns) == usage_in(
            events,
            now_ns,
            window_ns,
        ),
        forall|i: int|
            0 <= i < events.filter(recent_at(now_ns)).len() ==> recent(
                #[trigger] events.filter(recent_at(now_ns))[i],
                now_ns,
            ),
    decreases events.len(),
{
    let p = recent_at(now_ns);
    reveal_with_fuel(Seq::filter, 1);
    if events.len() > 0 {
        let s = events.drop_last();
        let x = events.last();
        law_pruning_keeps_window_usage(s, now_ns, window_ns);
        let f = s.filter(p);
        if p(x) {
            assert(events.filter(p) == f.push(x));
            assert(f.push(x).drop_last() =~= f);
            assert forall|i: int| 0 <= i < f.push(x).len() implies recent(
                #[trigger] f.push(x)[i],
                now_ns,
            ) by {
                if i < f.len() {
                    assert(f.push(x)[i] == f[i]);
                }
            }
        } else {
            assert(events.filter(p) == f);
            assert(window_start(now_ns, NANOS_PER_YEAR) <= window_start(now_ns, window_ns));
        }
    } else {
        assert(events.filter(p) =~= events);
    }
}

/// After a mint, the reserve's history holds only events at most a year
/// old, and the new event counts in every window that ends now.
pub proof fn law_mint_history_after_mint(events: Seq<MintEvent>, amount: u64, now_ns: u64, window_ns: u64)
    requires
        window_ns <= NANOS_PER_YEAR,
    ensures
        forall|i: int|
            0 <= i < events_after_mint(events, amount, now_ns).len() ==> recent(
                #[trigger] events_after_mint(events, amount, now_ns)[i],
                now_ns,
            ),
        usage_in(events_after_mint(events, amount, now_ns), now_ns, window_ns) == usage_in(
            events,
            now_ns,
            window_ns,
        ) + amount,
{
    let pushed = events.push(MintEvent { timestamp_ns: now_ns, amount });
    law_pruning_keeps_window_usage(pushed, now_ns, window_ns);
    lemma_usage_after_mint(events, now_ns, window_ns, amount);
}

// ---------------------------------------------------------------------------
// Reserves and keys
// ---------------------------------------------------------------------------

/// Which check refuses a manual top-up, in order: minting disabled, the
/// reserve disabled, manual top-ups forbidden, then the per-operation cap,
/// the lifetime maximum and the balance cap, each naming the requested
/// amount and the limit (for the balance cap, the room left below it).
pub proof fn law_topup_refusals(
    id: u64,
    amount: u64,
    policy: GlobalPolicy,
    config: ReserveConfig,
    minted: u64,
    balance: u64,
)
    ensures
        !policy.minting_enabled ==> topup_precheck(id, amount, policy, config, minted, balance)
            == Some(MinterError::MintingDisabled),
        policy.minting_enabled && !config.enabled ==> topup_precheck(
            id,
            amount,
            policy,
            config,
            minted,
            balance,
        ) == Some(MinterError::ReserveDisabled { id }),
        ({
            let flags_ok = policy.minting_enabled && config.enabled && config.allow_manual_topup;
            let over_op = policy.max_mint_per_operation is Some && amount
                > policy.max_mint_per_operation->0;
            let over_life = config.lifetime_received_maximum is Some && minted + amount
                > config.lifetime_received_maximum->0;
            let over_bal = config.max_balance is Some && balance + amount > config.max_balance->0;
            let r = topup_precheck(id, amount, policy, config, minted, balance);
            &&& flags_ok && over_op ==> r == Some(
                MinterError::AmountExceedsLimit {
                    requested: amount,
                    limit: policy.max_mint_per_operation->0,
                },
            )
            &&& flags_ok && !over_op && over_life ==> r == Some(
                MinterError::AmountExceedsLimit {
                    requested: amount,
                    limit: config.lifetime_received_maximum->0,
                },
            )
            &&& flags_ok && !over_op && !over_life && over_bal ==> r == Some(
                MinterError::AmountExceedsLimit {
                    requested: amount,
                    limit: if balance < config.max_balance->0 {
                        (config.max_balance->0 - balance) as u64
                    } else {
                        0
                    },
                },
            )
        }),
{
}

/// A configuration passes validation exactly when its label is not empty,
/// `min_balance <= target_balance`, `target_balance <= max_balance` when a
/// maximum is set, `lifetime_received_minimum <= lifetime_received_maximum`
/// when both are set (whatever `max_balance` is), and its rate limits, when
/// set, are progressive.
pub proof fn law_config_valid_iff_ordered(c: ReserveConfig)
    ensures
        config_valid(c) <==> {
            &&& c.label@.len() > 0
            &&& c.min_balance <= c.target_balance
            &&& (c.max_balance matches Some(m) ==> c.target_balance <= m)
            &&& (c.lifetime_received_minimum is Some && c.lifetime_received_maximum is Some
                ==> c.lifetime_received_minimum->0 <= c.lifetime_received_maximum->0)
            &&& (c.rate_limits matches Some(l) ==> progressive(configured_windows(l)))
        },
{
}

/// The reason a configuration is refused is its first broken rule, in the
/// order: empty label, `min_balance > target_balance`, `target_balance >
/// max_balance`, `lifetime_received_minimum > lifetime_received_maximum`,
/// then rate limits that are not progressive.
pub proof fn law_config_refusal_reasons(c: ReserveConfig)
    ensures
        ({
            let r = config_error(
                c.min_balance,
                c.target_balance,
                c.max_balance,
                c.lifetime_received_minimum,
                c.lifetime_received_maximum,
                c.rate_limits,
                c.label@,
            );
            let label_ok = c.label@.len() > 0;
            let min_ok = c.min_balance <= c.target_balance;
            let max_ok = c.max_balance is None || c.target_balance <= c.max_balance->0;
            let life_ok = c.lifetime_received_minimum is None || c.lifetime_received_maximum is None
                || c.lifetime_received_minimum->0 <= c.lifetime_received_maximum->0;
            &&& !label_ok ==> r == Some("Label cannot be empty"@)
            &&& label_ok && !min_ok ==> r == Some("min_balance must be <= target_balance"@)
            &&& label_ok && min_ok && !max_ok ==> r == Some("target_balance must be <= max_balance"@)
            &&& label_ok && min_ok && max_ok && !life_ok ==> r == Some(
                "lifetime_received_maximum must be >= lifetime_received_minimum"@,
            )
            &&& label_ok && min_ok && max_ok && life_ok && c.rate_limits is Some && !progressive(
                configured_windows(c.rate_limits->0),
            ) ==> r == Some(
                "Rate limits must be progressively more restrictive for larger time windows"@,
            )
        }),
{
}

/// An update is refused for its lifetime minimum exactly when it gives a
/// smaller minimum than the one set; when it is not refused, the lifetime
/// minimum it leaves is at least the one before.
pub proof fn law_lifetime_minimum_only_rises(c: ReserveConfig, a: UpdateReserveArg)
    ensures
        (a.lifetime_received_minimum is None || c.lifetime_received_minimum is None
            || a.lifetime_received_minimum->0 >= c.lifetime_received_minimum->0)
            <==> !lowers_lifetime_minimum(c, a),
        !lowers_lifetime_minimum(c, a) && c.lifetime_received_minimum is Some ==> apply_update(
            c,
            a,
        ).lifetime_received_minimum is Some && apply_update(c, a).lifetime_received_minimum->0
            >= c.lifetime_received_minimum->0,
{
}

/// After a partial update, every field given in the argument holds the
/// given value and every field not given keeps its value; the account
/// never changes.
pub proof fn law_update_stores_given_fields(c: ReserveConfig, a: UpdateReserveArg)
    ensures
        apply_update(c, a).account == c.account,
        a.min_balance matches Some(v) ==> apply_update(c, a).min_balance == v,
        a.min_balance is None ==> apply_update(c, a).min_balance == c.min_balance,
        a.target_balance matches Some(v) ==> apply_update(c, a).target_balance == v,
        a.target_balance is None ==> apply_update(c, a).target_balance == c.target_balance,
        a.max_balance matches Some(v) ==> apply_update(c, a).max_balance == v,
        a.max_balance is None ==> apply_update(c, a).max_balance == c.max_balance,
        a.max_topup_per_rebalance matches Some(v) ==> apply_update(c, a).max_topup_per_rebalance == v,
        a.max_topup_per_rebalance is None ==> apply_update(c, a).max_topup_per_rebalance
            == c.max_topup_per_rebalance,
        a.lifetime_received_minimum matches Some(v) ==> apply_update(c, a).lifetime_received_minimum
            == Some(v),
        a.lifetime_received_minimum is None ==> apply_update(c, a).lifetime_received_minimum
            == c.lifetime_received_minimum,
        a.lifetime_received_maximum matches Some(v) ==> apply_update(c, a).lifetime_received_maximum
            == v,
        a.lifetime_received_maximum is None ==> apply_update(c, a).lifetime_received_maximum
            == c.lifetime_received_maximum,
        a.rate_limits matches Some(v) ==> apply_update(c, a).rate_limits == v,
        a.rate_limits is None ==> apply_update(c, a).rate_limits == c.rate_limits,
        a.enabled matches Some(v) ==> apply_update(c, a).enabled == v,
        a.enabled is None ==> apply_update(c, a).enabled == c.enabled,
        a.allow_manual_topup matches Some(v) ==> apply_update(c, a).allow_manual_topup == v,
        a.allow_manual_topup is None ==> apply_update(c, a).allow_manual_topup == c.allow_manual_topup,
        a.allow_auto_rebalance matches Some(v) ==> apply_update(c, a).allow_auto_rebalance == v,
        a.allow_auto_rebalance is None ==> apply_update(c, a).allow_auto_rebalance
            == c.allow_auto_rebalance,
        a.purpose matches Some(v) ==> apply_update(c, a).purpose == v,
        a.purpose is None ==> apply_update(c, a).purpose == c.purpose,
        a.label matches Some(v) ==> apply_update(c, a).label == v,
        a.label is None ==> apply_update(c, a).label == c.label,
{
}

/// What blocks the removal of a reserve besides a mint in flight is
/// exactly an idempotency key whose record is a pending mint for that
/// reserve; completed records never block it.
pub proof fn law_removal_blocked_only_by_pending(state: State, id: u64)
    requires
        state.wf(),
    ensures
        pending_for(state.idempotency@, id) <==> exists|k: Seq<char>|
            #[trigger] state.keys().contains_key(k) && state.keys()[k] == (IdempotencyRecord::Pending {
                reserve_id: id,
            }),
        (forall|k: Seq<char>| #[trigger] state.keys().contains_key(k) ==> state.keys()[k] is Completed)
            ==> !pending_for(state.idempotency@, id),
{
    let items = state.idempotency@;
    if pending_for(items, id) {
        let i = choose|i: int|
            0 <= i < items.len() && #[trigger] items[i].record == (IdempotencyRecord::Pending {
                reserve_id: id,
            });
        lemma_key_map_at(items, i);
        assert(state.keys().contains_key(items[i].key@));
    }
    if exists|k: Seq<char>|
        #[trigger] state.keys().contains_key(k) && state.keys()[k] == (IdempotencyRecord::Pending {
            reserve_id: id,
        }) {
        let k = choose|k: Seq<char>|
            #[trigger] state.keys().contains_key(k) && state.keys()[k] == (IdempotencyRecord::Pending {
                reserve_id: id,
            });
        let j = choose|j: int| 0 <= j < items.len() && #[trigger] items[j].key@ == k;
        assert(items[j].record == (IdempotencyRecord::Pending { reserve_id: id }));
    }
}

/// A reserve added under a fresh id is found again under that id, with the
/// configuration it was added with, a zero lifetime total and no mint
/// history; every reserve registered before is found unchanged.
pub proof fn law_added_reserve_reads_back(before: State, after: State, id: u64, config: ReserveConfig)
    requires
        added_reserve(before.reserves@, after.reserves@, id, config),
    ensures
        !before.has_reserve(id),
        after.has_reserve(id),
        after.reserve(id).config == config,
        after.reserve(id).lifetime_minted == 0,
        after.reserve(id).mint_events@.len() == 0,
        forall|other: u64| #[trigger] before.has_reserve(other) ==> after.has_reserve(other)
            && after.reserve(other) == before.reserve(other),
        forall|other: u64| #[trigger] after.has_reserve(other) ==> other == id || before.has_reserve(other),
{
    assert(after.reserves@.dom().contains(id));
    assert forall|other: u64| #[trigger] before.has_reserve(other) implies after.has_reserve(other)
        && after.reserve(other) == before.reserve(other) by {
        assert(after.reserves@.dom().contains(other));
    }
    assert forall|other: u64| #[trigger] after.has_reserve(other) implies other == id || before.has_reserve(other) by {
        assert(after.reserves@.dom().contains(other));
    }
}

/// A reserve replaced under the same id (an update, a recorded mint) is
/// found again under that id with its new values, and every other reserve
/// is found unchanged.
pub proof fn law_replaced_reserve_reads_back(before: State, after: State, id: u64, record: ReserveRecord)
    requires
        before.has_reserve(id),
        after.reserves@ == before.reserves@.insert(id, record),
    ensures
        after.has_reserve(id),
        after.reserve(id) == record,
        forall|other: u64| other != id ==> (#[trigger] after.has_reserve(other) <==> before.has_reserve(other)),
        forall|other: u64| other != id && before.has_reserve(other) ==> #[trigger] after.reserve(other)
            == before.reserve(other),
{
}

/// Once a manual top-up with a key has completed, starting a top-up with
/// the same key finds the completed record, and the response it replays is
/// the response of the original top-up.
pub proof fn law_completed_topup_replays(
    before: State,
    after: State,
    arg: ManualTopupArg,
    block_index: u64,
    now_ns: u64,
)
    requires
        arg.idempotency_key is Some,
        after.keys() == before.keys().insert(
            opt_key(arg.idempotency_key)->0,
            IdempotencyRecord::Completed(
                IdempotencyEntry {
                    ledger_block_index: block_index,
                    minted_amount: arg.amount,
                    reserve_id: arg.reserve_id,
                    executed_at_ns: now_ns,
                },
            ),
        ),
    ensures
        key_record(after, opt_key(arg.idempotency_key)) matches Some(IdempotencyRecord::Completed(e))
            && replay_response(e) == (ManualTopupResponse {
            reserve_id: arg.reserve_id,
            minted_amount: arg.amount,
            ledger_block_index: block_index,
        }),
{
}

/// A completed idempotency key stays completed, with the same record,
/// through any run of operations that each keep the completed keys (every
/// operation on the state does), as long as none of them is a manual
/// top-up commit under that same key; a manual top-up with the key then
/// replays the response that the record holds.
pub proof fn law_completed_key_survives(
    states: Seq<State>,
    excepts: Seq<Option<Seq<char>>>,
    k: Seq<char>,
    e: IdempotencyEntry,
)
    requires
        states.len() == excepts.len() + 1,
        states[0].keys().contains_key(k),
        states[0].keys()[k] == IdempotencyRecord::Completed(e),
        forall|i: int|
            0 <= i < excepts.len() ==> #[trigger] keeps_completed_keys(
                states[i],
                states[i + 1],
                excepts[i],
            ) && excepts[i] != Some(k),
    ensures
        key_record(states.last(), Some(k)) == Some(IdempotencyRecord::Completed(e)),
    decreases excepts.len(),
{
    if excepts.len() > 0 {
        let n = excepts.len() - 1;
        let front = states.drop_last();
        assert forall|i: int| 0 <= i < excepts.drop_last().len() implies #[trigger] keeps_completed_keys(
            front[i],
            front[i + 1],
            excepts.drop_last()[i],
        ) && excepts.drop_last()[i] != Some(k) by {
            assert(keeps_completed_keys(states[i], states[i + 1], excepts[i]));
        }
        law_completed_key_survives(front, excepts.drop_last(), k, e);
        assert(keeps_completed_keys(states[n], states[n + 1], excepts[n]));
        assert(front.last() == states[n]);
        assert(states[n].keys().contains_key(k));
    }
}

/// Once a mint flow has taken a reserve's lock, the reserve stays in
/// flight (so every other start on it is refused with
/// `ReserveOperationInProgress`) until that reserve's lock is released,
/// and releasing another reserve's lock does not release it.
pub proof fn law_lock_held_until_released(before: State, locked: State, released: State, id: u64, other: u64)
    requires
        locked.inflight() == before.inflight().insert(id),
        released.inflight() == locked.inflight().remove(other),
    ensures
        locked.inflight().contains(id),
        other != id ==> released.inflight().contains(id),
        other == id ==> !released.inflight().contains(id),
{
}

// ---------------------------------------------------------------------------
// Stable memory layout
// ---------------------------------------------------------------------------

/// The length prefix reads back as the length it was written from.
pub proof fn law_length_prefix_round_trip(len: u32)
    ensures
        le_value(le_bytes(len)) == len,
{
}

/// A saved state of positive length is restorable from stable memory of
/// at least the pages the save grows it to.
pub proof fn law_saved_state_restorable(len: u32, pages: u64)
    requires
        len > 0,
        pages >= pages_needed(len as nat),
    ensures
        restored_len(pages, le_bytes(len)) == Some(len as nat),
{
    law_length_prefix_round_trip(len);
    assert(pages * PAGE_SIZE >= len + PREFIX_LEN) by (nonlinear_arith)
        requires
            pages >= (len + 4 + 65535) / 65536,
            PAGE_SIZE == 65536,
            PREFIX_LEN == 4,
    ;
}

} // verus!
