//! The minter's business rules on plain values: configuration validation,
//! rate-limit accounting and the rebalance computation.
use vstd::prelude::*;

use crate::model::{
    AddReserveArg, ComputedRebalance, ComputedRebalanceView, GlobalPolicy, MintEvent, MinterError,
    RateLimits, RebalanceAction, RebalanceActionView, ReserveConfig, is_invalid_config,
};

verus! {

// ---------------------------------------------------------------------------
// Time constants
// ---------------------------------------------------------------------------

/// Nanoseconds in one hour.
pub const NANOS_PER_HOUR: u64 = 3_600_000_000_000;
/// Nanoseconds in one day.
pub const NANOS_PER_DAY: u64 = 86_400_000_000_000;
/// Nanoseconds in one week.
pub const NANOS_PER_WEEK: u64 = 604_800_000_000_000;
/// Nanoseconds in 30 days.
pub const NANOS_PER_MONTH: u64 = 2_592_000_000_000_000;
/// Nanoseconds in 365 days.
pub const NANOS_PER_YEAR: u64 = 31_536_000_000_000_000;

/// Hours in one hour.
pub const HOURS_PER_HOUR: u64 = 1;
/// Hours in one day.
pub const HOURS_PER_DAY: u64 = 24;
/// Hours in one week.
pub const HOURS_PER_WEEK: u64 = 168;
/// Hours in 30 days.
pub const HOURS_PER_MONTH: u64 = 720;
/// Hours in 365 days.
pub const HOURS_PER_YEAR: u64 = 8760;

// ---------------------------------------------------------------------------
// Rate-limit validation
// ---------------------------------------------------------------------------

/// Appends `(hours, limit)` when the window is configured.
pub open spec fn push_window(ws: Seq<(u64, u64)>, hours: u64, limit: Option<u64>) -> Seq<(u64, u64)> {
    match limit {
        Some(l) => ws.push((hours, l)),
        None => ws,
    }
}

/// The configured windows, smallest first, as `(length in hours, limit)`.
pub open spec fn configured_windows(limits: RateLimits) -> Seq<(u64, u64)> {
    push_window(
        push_window(
            push_window(
                push_window(
                    push_window(Seq::empty(), HOURS_PER_HOUR, limits.max_amount_per_hour),
                    HOURS_PER_DAY,
                    limits.max_amount_per_day,
                ),
                HOURS_PER_WEEK,
                limits.max_amount_per_week,
            ),
            HOURS_PER_MONTH,
            limits.max_amount_per_month,
        ),
        HOURS_PER_YEAR,
        limits.max_amount_per_year,
    )
}

/// The larger window allows a strictly lower rate than the smaller one:
/// `limit_large / hours_large < limit_small / hours_small`, cross-multiplied.
pub open spec fn stricter(small: (u64, u64), large: (u64, u64)) -> bool {
    large.1 * small.0 < small.1 * large.0
}

/// Each configured window is stricter than the configured window before it.
pub open spec fn progressive(ws: Seq<(u64, u64)>) -> bool {
    forall|i: int, j: int|
        0 <= i && j == i + 1 && j < ws.len() ==> #[trigger] stricter(ws[i], ws[j])
}

/// Reason given when rate limits are not progressively stricter.
pub open spec fn rate_limits_reason() -> Seq<char> {
    "Rate limits must be progressively more restrictive for larger time windows"@
}

/// The product of two `u64` values fits in a `u128`.
pub proof fn lemma_u64_product_fits(a: u64, b: u64)
    ensures
        0 <= (a as int) * (b as int) <= u128::MAX,
{
    assert(0 <= (a as int) * (b as int) <= 0xffff_ffff_ffff_ffffint * 0xffff_ffff_ffff_ffffint)
        by (nonlinear_arith)
        requires
            a <= 0xffff_ffff_ffff_ffffint,
            b <= 0xffff_ffff_ffff_ffffint,
    ;
}

fn push_configured(ws: &mut Vec<(u64, u64)>, hours: u64, limit: Option<u64>)
    ensures
        final(ws)@ == push_window(old(ws)@, hours, limit),
{
    if let Some(l) = limit {
        ws.push((hours, l));
    }
}

/// Checks that larger windows are strictly more restrictive (a lower
/// effective rate) than smaller ones, comparing each configured window with
/// the next configured one.
pub fn validate_rate_limits(limits: &RateLimits) -> (r: Result<(), MinterError>)
    ensures
        r is Ok <==> progressive(configured_windows(*limits)),
        r matches Err(e) ==> is_invalid_config(e, rate_limits_reason()),
{
    let mut ws: Vec<(u64, u64)> = Vec::new();
    push_configured(&mut ws, HOURS_PER_HOUR, limits.max_amount_per_hour);
    push_configured(&mut ws, HOURS_PER_DAY, limits.max_amount_per_day);
    push_configured(&mut ws, HOURS_PER_WEEK, limits.max_amount_per_week);
    push_configured(&mut ws, HOURS_PER_MONTH, limits.max_amount_per_month);
    push_configured(&mut ws, HOURS_PER_YEAR, limits.max_amount_per_year);
    let ghost cw = configured_windows(*limits);
    assert(ws@ == cw);
    let mut k: usize = 1;
    while k < ws.len()
        invariant
            ws@ == cw,
            cw == configured_windows(*limits),
            1 <= k,
            forall|i: int, j: int|
                0 <= i && j == i + 1 && j < k && j < ws@.len() ==> #[trigger] stricter(ws@[i], ws@[j]),
        decreases ws.len() - k,
    {
        let (d_small, l_small) = ws[k - 1];
        let (d_large, l_large) = ws[k];
        proof {
            lemma_u64_product_fits(l_large, d_small);
            lemma_u64_product_fits(l_small, d_large);
        }
        let lhs: u128 = (l_large as u128) * (d_small as u128);
        let rhs: u128 = (l_small as u128) * (d_large as u128);
        if lhs >= rhs {
            assert(!stricter(ws@[k - 1], ws@[k as int]));
            assert(!progressive(cw)) by {
                let i = k - 1;
                let j = k as int;
                assert(0 <= i && j == i + 1 && j < cw.len() && !stricter(cw[i], cw[j]));
            }
            return Err(
                MinterError::InvalidConfig {
                    reason: String::from_str(
                        "Rate limits must be progressively more restrictive for larger time windows",
                    ),
                },
            );
        }
        assert(stricter(ws@[k - 1], ws@[k as int]));
        k = k + 1;
    }
    Ok(())
}

// ---------------------------------------------------------------------------
// Balance / config validation
// ---------------------------------------------------------------------------

/// The first ordering rule that the thresholds break, as the reason given
/// for the rejection; `None` when all hold.
pub open spec fn balance_violation(
    min_balance: u64,
    target_balance: u64,
    max_balance: Option<u64>,
    lifetime_min: Option<u64>,
    lifetime_max: Option<u64>,
    label: Seq<char>,
) -> Option<Seq<char>> {
    if label.len() == 0 {
        Some("Label cannot be empty"@)
    } else if min_balance > target_balance {
        Some("min_balance must be <= target_balance"@)
    } else if max_balance matches Some(m) && target_balance > m {
        Some("target_balance must be <= max_balance"@)
    } else if lifetime_min matches Some(lo) && lifetime_max matches Some(hi) && lo > hi {
        Some("lifetime_received_maximum must be >= lifetime_received_minimum"@)
    } else {
        None
    }
}

/// Checks the ordering rules of a reserve's thresholds: a non-empty label,
/// `min_balance <= target_balance`, `target_balance <= max_balance` when
/// set, and `lifetime_received_minimum <= lifetime_received_maximum` when
/// both are set.
pub fn validate_balance_invariants(
    min_balance: &u64,
    target_balance: &u64,
    max_balance: Option<&u64>,
    lifetime_min: Option<&u64>,
    lifetime_max: Option<&u64>,
    label: &str,
) -> (r: Result<(), MinterError>)
    ensures
        ({
            let v = balance_violation(
                *min_balance,
                *target_balance,
                match max_balance { Some(m) => Some(*m), None => None },
                match lifetime_min { Some(m) => Some(*m), None => None },
                match lifetime_max { Some(m) => Some(*m), None => None },
                label@,
            );
            match v {
                None => r is Ok,
                Some(reason) => r matches Err(e) && is_invalid_config(e, reason),
            }
        }),
{
    if label.is_empty() {
        return Err(MinterError::InvalidConfig { reason: String::from_str("Label cannot be empty") });
    }
    if *min_balance > *target_balance {
        return Err(
            MinterError::InvalidConfig {
                reason: String::from_str("min_balance must be <= target_balance"),
            },
        );
    }
    if let Some(max) = max_balance {
        if *target_balance > *max {
            return Err(
                MinterError::InvalidConfig {
                    reason: String::from_str("target_balance must be <= max_balance"),
                },
            );
        }
    }
    if let (Some(lo), Some(hi)) = (lifetime_min, lifetime_max) {
        if *lo > *hi {
            return Err(
                MinterError::InvalidConfig {
                    reason: String::from_str(
                        "lifetime_received_maximum must be >= lifetime_received_minimum",
                    ),
                },
            );
        }
    }
    Ok(())
}

/// The outcome of validating a configuration with the given fields: the
/// first broken threshold rule, else the rate-limit rule.
pub open spec fn config_error(
    min_balance: u64,
    target_balance: u64,
    max_balance: Option<u64>,
    lifetime_min: Option<u64>,
    lifetime_max: Option<u64>,
    rate_limits: Option<RateLimits>,
    label: Seq<char>,
) -> Option<Seq<char>> {
    match balance_violation(min_balance, target_balance, max_balance, lifetime_min, lifetime_max, label) {
        Some(reason) => Some(reason),
        None => match rate_limits {
            Some(l) => if progressive(configured_windows(l)) {
                None
            } else {
                Some(rate_limits_reason())
            },
            None => None,
        },
    }
}

/// Whether a configuration passes validation.
pub open spec fn config_valid(c: ReserveConfig) -> bool {
    config_error(
        c.min_balance,
        c.target_balance,
        c.max_balance,
        c.lifetime_received_minimum,
        c.lifetime_received_maximum,
        c.rate_limits,
        c.label@,
    ) is None
}

fn validate_fields(
    min_balance: &u64,
    target_balance: &u64,
    max_balance: &Option<u64>,
    lifetime_min: &Option<u64>,
    lifetime_max: &Option<u64>,
    rate_limits: &Option<RateLimits>,
    label: &String,
) -> (r: Result<(), MinterError>)
    ensures
        match config_error(
            *min_balance,
            *target_balance,
            *max_balance,
            *lifetime_min,
            *lifetime_max,
            *rate_limits,
            label@,
        ) {
            None => r is Ok,
            Some(reason) => r matches Err(e) && is_invalid_config(e, reason),
        },
{
    let r = validate_balance_invariants(
        min_balance,
        target_balance,
        max_balance.as_ref(),
        lifetime_min.as_ref(),
        lifetime_max.as_ref(),
        label.as_str(),
    );
    if r.is_err() {
        return r;
    }
    if let Some(limits) = rate_limits {
        validate_rate_limits(limits)
    } else {
        Ok(())
    }
}

/// Validates the fields of a new reserve: threshold rules, then rate-limit
/// progressivity.
pub fn validate_add_reserve_arg(arg: &AddReserveArg) -> (r: Result<(), MinterError>)
    ensures
        match config_error(
            arg.min_balance,
            arg.target_balance,
            arg.max_balance,
            arg.lifetime_received_minimum,
            arg.lifetime_received_maximum,
            arg.rate_limits,
            arg.label@,
        ) {
            None => r is Ok,
            Some(reason) => r matches Err(e) && is_invalid_config(e, reason),
        },
{
    validate_fields(
        &arg.min_balance,
        &arg.target_balance,
        &arg.max_balance,
        &arg.lifetime_received_minimum,
        &arg.lifetime_received_maximum,
        &arg.rate_limits,
        &arg.label,
    )
}

/// Validates a complete configuration: threshold rules, then rate-limit
/// progressivity.
pub fn validate_reserve_config(config: &ReserveConfig) -> (r: Result<(), MinterError>)
    ensures
        r is Ok <==> config_valid(*config),
        match config_error(
            config.min_balance,
            config.target_balance,
            config.max_balance,
            config.lifetime_received_minimum,
            config.lifetime_received_maximum,
            config.rate_limits,
            config.label@,
        ) {
            None => r is Ok,
            Some(reason) => r matches Err(e) && is_invalid_config(e, reason),
        },
{
    validate_fields(
        &config.min_balance,
        &config.target_balance,
        &config.max_balance,
        &config.lifetime_received_minimum,
        &config.lifetime_received_maximum,
        &config.rate_limits,
        &config.label,
    )
}

// ---------------------------------------------------------------------------
// Rate-limit accounting
// ---------------------------------------------------------------------------

/// Start of the window of the given length that ends at `now_ns`
/// (saturating at 0).
pub open spec fn window_start(now_ns: u64, window_ns: u64) -> u64 {
    if now_ns >= window_ns {
        (now_ns - window_ns) as u64
    } else {
        0
    }
}

/// Total amount of the events at or after `cutoff`.
pub open spec fn usage_since(events: Seq<MintEvent>, cutoff: u64) -> nat
    decreases events.len(),
{
    if events.len() == 0 {
        0
    } else {
        usage_since(events.drop_last(), cutoff) + if events.last().timestamp_ns >= cutoff {
            events.last().amount as nat
        } else {
            0
        }
    }
}

/// Amount minted within the window of `window_ns` that ends at `now_ns`.
pub open spec fn usage_in(events: Seq<MintEvent>, now_ns: u64, window_ns: u64) -> nat {
    usage_since(events, window_start(now_ns, window_ns))
}

/// A total of events is at most their number times the largest amount.
pub proof fn lemma_usage_bound(events: Seq<MintEvent>, cutoff: u64)
    ensures
        usage_since(events, cutoff) <= events.len() * 0xffff_ffff_ffff_ffffint,
    decreases events.len(),
{
    if events.len() > 0 {
        lemma_usage_bound(events.drop_last(), cutoff);
    }
}

/// Sums the amounts minted within the last `window_ns` nanoseconds.
pub fn usage_in_window(events: &[MintEvent], now_ns: u64, window_ns: u64) -> (r: u128)
    ensures
        r == usage_in(events@, now_ns, window_ns),
{
    let cutoff = if now_ns >= window_ns {
        now_ns - window_ns
    } else {
        0
    };
    let mut total: u128 = 0;
    let mut k: usize = 0;
    while k < events.len()
        invariant
            k <= events@.len(),
            cutoff == window_start(now_ns, window_ns),
            total == usage_since(events@.take(k as int), cutoff),
        decreases events.len() - k,
    {
        let e = events[k];
        proof {
            assert(events@.take(k + 1).drop_last() =~= events@.take(k as int));
            lemma_usage_bound(events@.take(k + 1), cutoff);
            assert((k + 1) * 0xffff_ffff_ffff_ffffint <= 0x1_0000_0000_0000_0000int
                * 0xffff_ffff_ffff_ffffint) by (nonlinear_arith)
                requires
                    k + 1 <= 0x1_0000_0000_0000_0000int,
            ;
        }
        if e.timestamp_ns >= cutoff {
            total = total + e.amount as u128;
        }
        k = k + 1;
    }
    assert(events@.take(events@.len() as int) =~= events@);
    total
}

/// What remains of one window's cap: `None` when the window has no cap.
pub open spec fn remaining_in_window(
    limit: Option<u64>,
    events: Seq<MintEvent>,
    now_ns: u64,
    window_ns: u64,
) -> Option<u64> {
    match limit {
        None => None,
        Some(l) => {
            let used = usage_in(events, now_ns, window_ns);
            Some(
                if l > used {
                    (l - used) as u64
                } else {
                    0
                },
            )
        },
    }
}

/// The smaller of a budget so far and one window's remainder.
pub open spec fn tighter(budget: Option<u64>, remaining: Option<u64>) -> Option<u64> {
    match remaining {
        None => budget,
        Some(r) => match budget {
            Some(b) => Some(
                if r < b {
                    r
                } else {
                    b
                },
            ),
            None => Some(r),
        },
    }
}

/// The amount mintable now without exceeding any configured window: the
/// smallest remainder over the configured windows; `None` when there are no
/// rate limits or no window is configured.
pub open spec fn mint_budget(
    rate_limits: Option<RateLimits>,
    events: Seq<MintEvent>,
    now_ns: u64,
) -> Option<u64> {
    match rate_limits {
        None => None,
        Some(l) => tighter(
            tighter(
                tighter(
                    tighter(
                        tighter(
                            None,
                            remaining_in_window(l.max_amount_per_hour, events, now_ns, NANOS_PER_HOUR),
                        ),
                        remaining_in_window(l.max_amount_per_day, events, now_ns, NANOS_PER_DAY),
                    ),
                    remaining_in_window(l.max_amount_per_week, events, now_ns, NANOS_PER_WEEK),
                ),
                remaining_in_window(l.max_amount_per_month, events, now_ns, NANOS_PER_MONTH),
            ),
            remaining_in_window(l.max_amount_per_year, events, now_ns, NANOS_PER_YEAR),
        ),
    }
}

fn tighten(
    budget: Option<u64>,
    limit: Option<u64>,
    events: &[MintEvent],
    now_ns: u64,
    window_ns: u64,
) -> (r: Option<u64>)
    ensures
        r == tighter(budget, remaining_in_window(limit, events@, now_ns, window_ns)),
{
    match limit {
        None => budget,
        Some(l) => {
            let used = usage_in_window(events, now_ns, window_ns);
            let remaining: u64 = if (l as u128) > used {
                (l as u128 - used) as u64
            } else {
                0
            };
            match budget {
                Some(b) => Some(
                    if remaining < b {
                        remaining
                    } else {
                        b
                    },
                ),
                None => Some(remaining),
            }
        },
    }
}

/// Returns the largest amount mintable now without exceeding any configured
/// window: the minimum remaining cap over the configured windows, `Some(0)`
/// when a window is used up, `None` without rate limits.
pub fn available_mint_budget(
    rate_limits: Option<&RateLimits>,
    events: &[MintEvent],
    now_ns: u64,
) -> (r: Option<u64>)
    ensures
        r == mint_budget(
            match rate_limits {
                Some(l) => Some(*l),
                None => None,
            },
            events@,
            now_ns,
        ),
{
    match rate_limits {
        None => None,
        Some(limits) => {
            let mut budget: Option<u64> = None;
            budget = tighten(budget, limits.max_amount_per_hour, events, now_ns, NANOS_PER_HOUR);
            budget = tighten(budget, limits.max_amount_per_day, events, now_ns, NANOS_PER_DAY);
            budget = tighten(budget, limits.max_amount_per_week, events, now_ns, NANOS_PER_WEEK);
            budget = tighten(budget, limits.max_amount_per_month, events, now_ns, NANOS_PER_MONTH);
            budget = tighten(budget, limits.max_amount_per_year, events, now_ns, NANOS_PER_YEAR);
            budget
        },
    }
}

/// One window's cap would be exceeded by minting `amount` now.
pub open spec fn window_exceeded(
    limit: Option<u64>,
    events: Seq<MintEvent>,
    now_ns: u64,
    window_ns: u64,
    amount: u64,
) -> bool {
    limit matches Some(l) && usage_in(events, now_ns, window_ns) + amount > l
}

/// The first window (hour, day, week, month, year) whose cap minting
/// `amount` now would exceed, as `(name, cap, current usage)`.
pub open spec fn rate_limit_breach(
    l: RateLimits,
    events: Seq<MintEvent>,
    amount: u64,
    now_ns: u64,
) -> Option<(Seq<char>, u64, nat)> {
    if window_exceeded(l.max_amount_per_hour, events, now_ns, NANOS_PER_HOUR, amount) {
        Some(("hour"@, l.max_amount_per_hour->0, usage_in(events, now_ns, NANOS_PER_HOUR)))
    } else if window_exceeded(l.max_amount_per_day, events, now_ns, NANOS_PER_DAY, amount) {
        Some(("day"@, l.max_amount_per_day->0, usage_in(events, now_ns, NANOS_PER_DAY)))
    } else if window_exceeded(l.max_amount_per_week, events, now_ns, NANOS_PER_WEEK, amount) {
        Some(("week"@, l.max_amount_per_week->0, usage_in(events, now_ns, NANOS_PER_WEEK)))
    } else if window_exceeded(l.max_amount_per_month, events, now_ns, NANOS_PER_MONTH, amount) {
        Some(("month"@, l.max_amount_per_month->0, usage_in(events, now_ns, NANOS_PER_MONTH)))
    } else if window_exceeded(l.max_amount_per_year, events, now_ns, NANOS_PER_YEAR, amount) {
        Some(("year"@, l.max_amount_per_year->0, usage_in(events, now_ns, NANOS_PER_YEAR)))
    } else {
        None
    }
}

/// The error is the rate-limit error for the given breach and request.
pub open spec fn is_rate_limit_error(e: MinterError, breach: (Seq<char>, u64, nat), amount: u64) -> bool {
    e matches MinterError::RateLimitExceeded { window, limit, current_usage, requested }
        && window@ == breach.0 && limit == breach.1 && current_usage == breach.2
        && requested == amount
}

fn check_window(
    limit: Option<u64>,
    events: &[MintEvent],
    amount: u64,
    now_ns: u64,
    window_ns: u64,
    name: &str,
) -> (r: Result<(), MinterError>)
    ensures
        !window_exceeded(limit, events@, now_ns, window_ns, amount) ==> r is Ok,
        window_exceeded(limit, events@, now_ns, window_ns, amount) ==> (r matches Err(e)
            && is_rate_limit_error(
            e,
            (name@, limit->0, usage_in(events@, now_ns, window_ns)),
            amount,
        )),
{
    if let Some(l) = limit {
        let used = usage_in_window(events, now_ns, window_ns);
        if used > (l as u128) || (l as u128) - used < (amount as u128) {
            return Err(
                MinterError::RateLimitExceeded {
                    window: String::from_str(name),
                    limit: l,
                    current_usage: used,
                    requested: amount,
                },
            );
        }
    }
    Ok(())
}

/// Hard check used by manual top-ups: fails with the first window (hour,
/// day, week, month, year) whose cap minting `amount` now would exceed.
pub fn check_rate_limits(
    limits: &RateLimits,
    events: &[MintEvent],
    amount: &u64,
    now_ns: u64,
) -> (r: Result<(), MinterError>)
    ensures
        match rate_limit_breach(*limits, events@, *amount, now_ns) {
            None => r is Ok,
            Some(b) => r matches Err(e) && is_rate_limit_error(e, b, *amount),
        },
{
    let amount = *amount;
    let r = check_window(limits.max_amount_per_hour, events, amount, now_ns, NANOS_PER_HOUR, "hour");
    if r.is_err() {
        return r;
    }
    let r = check_window(limits.max_amount_per_day, events, amount, now_ns, NANOS_PER_DAY, "day");
    if r.is_err() {
        return r;
    }
    let r = check_window(limits.max_amount_per_week, events, amount, now_ns, NANOS_PER_WEEK, "week");
    if r.is_err() {
        return r;
    }
    let r = check_window(
        limits.max_amount_per_month,
        events,
        amount,
        now_ns,
        NANOS_PER_MONTH,
        "month",
    );
    if r.is_err() {
        return r;
    }
    check_window(limits.max_amount_per_year, events, amount, now_ns, NANOS_PER_YEAR, "year")
}

/// The event is recent enough to be kept: at most a year old.
pub open spec fn recent(e: MintEvent, now_ns: u64) -> bool {
    e.timestamp_ns >= window_start(now_ns, NANOS_PER_YEAR)
}

/// The predicate "at most a year old at `now_ns`".
pub open spec fn recent_at(now_ns: u64) -> spec_fn(MintEvent) -> bool {
    |e: MintEvent| recent(e, now_ns)
}

/// Removes the mint events older than the largest window (one year),
/// keeping the others in order.
pub fn prune_old_events(events: &mut Vec<MintEvent>, now_ns: u64)
    ensures
        final(events)@ == old(events)@.filter(recent_at(now_ns)),
{
    let cutoff = if now_ns >= NANOS_PER_YEAR {
        now_ns - NANOS_PER_YEAR
    } else {
        0
    };
    let ghost pred = recent_at(now_ns);
    let mut kept: Vec<MintEvent> = Vec::new();
    let mut k: usize = 0;
    while k < events.len()
        invariant
            k <= events@.len(),
            cutoff == window_start(now_ns, NANOS_PER_YEAR),
            pred == recent_at(now_ns),
            kept@ == events@.take(k as int).filter(pred),
        decreases events.len() - k,
    {
        let e = events[k];
        proof {
            assert(events@.take(k + 1).drop_last() =~= events@.take(k as int));
            reveal_with_fuel(Seq::filter, 1);
        }
        if e.timestamp_ns >= cutoff {
            kept.push(e);
        }
        k = k + 1;
    }
    assert(events@.take(events@.len() as int) =~= events@);
    *events = kept;
}

// ---------------------------------------------------------------------------
// Rebalance computation
// ---------------------------------------------------------------------------

/// Shortfall of the balance relative to the target.
pub open spec fn cyclical_deficit(target: u64, balance: u64) -> u64 {
    if balance >= target {
        0
    } else {
        (target - balance) as u64
    }
}

/// Shortfall of the lifetime total relative to the lifetime minimum.
pub open spec fn lifetime_deficit(minimum: Option<u64>, minted: u64) -> u64 {
    match minimum {
        Some(m) => if m > minted {
            (m - minted) as u64
        } else {
            0
        },
        None => 0,
    }
}

/// `amount` lowered to `limit` when a limit is set.
pub open spec fn capped(amount: u64, limit: Option<u64>) -> u64 {
    match limit {
        Some(l) => if amount > l {
            l
        } else {
            amount
        },
        None => amount,
    }
}

/// A skipped outcome with the given reason and deficits.
pub open spec fn skipped(reason: Seq<char>, cd: u64, ld: u64) -> Result<ComputedRebalanceView, MinterError> {
    Ok(
        ComputedRebalanceView {
            action: RebalanceActionView::Skipped { reason },
            mint_amount: 0,
            cyclical_deficit: cd,
            lifetime_deficit: ld,
        },
    )
}

/// The rebalance rule: mint the larger of the two deficits, capped in turn
/// by `max_topup_per_rebalance`, the room below `max_balance`, the room
/// below `lifetime_received_maximum` and the policy's per-operation cap.
pub open spec fn planned_rebalance(
    config: ReserveConfig,
    balance: u64,
    minted: u64,
    policy: GlobalPolicy,
) -> Result<ComputedRebalanceView, MinterError> {
    if !policy.minting_enabled {
        Err(MinterError::MintingDisabled)
    } else if !config.enabled {
        skipped("Reserve is disabled"@, 0, 0)
    } else if !config.allow_auto_rebalance {
        skipped("Auto-rebalance not allowed for this reserve"@, 0, 0)
    } else {
        let cd = cyclical_deficit(config.target_balance, balance);
        let ld = lifetime_deficit(config.lifetime_received_minimum, minted);
        let raw = if ld > cd {
            ld
        } else {
            cd
        };
        if raw == 0 {
            Ok(
                ComputedRebalanceView {
                    action: RebalanceActionView::AlreadyFunded,
                    mint_amount: 0,
                    cyclical_deficit: cd,
                    lifetime_deficit: ld,
                },
            )
        } else if config.max_balance matches Some(mb) && mb <= balance {
            skipped("Balance already at or above max_balance"@, cd, ld)
        } else if config.lifetime_received_maximum matches Some(lm) && lm <= minted {
            skipped("Lifetime maximum already reached"@, cd, ld)
        } else {
            let a1 = capped(raw, config.max_topup_per_rebalance);
            let a2 = match config.max_balance {
                Some(mb) => capped(a1, Some((mb - balance) as u64)),
                None => a1,
            };
            let a3 = match config.lifetime_received_maximum {
                Some(lm) => capped(a2, Some((lm - minted) as u64)),
                None => a2,
            };
            let a4 = capped(a3, policy.max_mint_per_operation);
            if a4 == 0 {
                skipped("Amount capped to zero by policy or config limits"@, cd, ld)
            } else {
                Ok(
                    ComputedRebalanceView {
                        action: RebalanceActionView::Minted,
                        mint_amount: a4,
                        cyclical_deficit: cd,
                        lifetime_deficit: ld,
                    },
                )
            }
        }
    }
}

fn skip(reason: &str, cd: u64, ld: u64) -> (r: Result<ComputedRebalance, MinterError>)
    ensures
        r matches Ok(c) && Ok::<ComputedRebalanceView, MinterError>(c@) == skipped(reason@, cd, ld),
{
    Ok(
        ComputedRebalance {
            action: RebalanceAction::Skipped { reason: String::from_str(reason) },
            mint_amount: 0,
            cyclical_deficit: cd,
            lifetime_deficit: ld,
        },
    )
}

/// Computes how many tokens a rebalance mints to a reserve, given its
/// configuration, its current ledger balance and its lifetime total.
///
/// The amount is the larger of the cyclical deficit (`target_balance -
/// balance`) and the lifetime deficit (`lifetime_received_minimum -
/// lifetime_minted`), capped in turn by `max_topup_per_rebalance`, the
/// room below `max_balance`, the room below `lifetime_received_maximum` and
/// the policy's `max_mint_per_operation`.  Rate limits are applied by the
/// caller.
pub fn compute_rebalance(
    config: &ReserveConfig,
    current_balance: &u64,
    lifetime_minted: &u64,
    policy: &GlobalPolicy,
) -> (r: Result<ComputedRebalance, MinterError>)
    ensures
        match r {
            Ok(c) => planned_rebalance(*config, *current_balance, *lifetime_minted, *policy)
                == Ok::<ComputedRebalanceView, MinterError>(c@),
            Err(e) => planned_rebalance(*config, *current_balance, *lifetime_minted, *policy)
                == Err::<ComputedRebalanceView, MinterError>(e),
        },
{
    let balance = *current_balance;
    let minted = *lifetime_minted;
    if !policy.minting_enabled {
        return Err(MinterError::MintingDisabled);
    }
    if !config.enabled {
        return skip("Reserve is disabled", 0, 0);
    }
    if !config.allow_auto_rebalance {
        return skip("Auto-rebalance not allowed for this reserve", 0, 0);
    }
    let cyclical_deficit: u64 = if balance >= config.target_balance {
        0
    } else {
        config.target_balance - balance
    };
    let lifetime_deficit: u64 = match config.lifetime_received_minimum {
        Some(min) => if min > minted {
            min - minted
        } else {
            0
        },
        None => 0,
    };
    let mut amount: u64 = if lifetime_deficit > cyclical_deficit {
        lifetime_deficit
    } else {
        cyclical_deficit
    };
    if amount == 0 {
        return Ok(
            ComputedRebalance {
                action: RebalanceAction::AlreadyFunded,
                mint_amount: 0,
                cyclical_deficit,
                lifetime_deficit,
            },
        );
    }
    if let Some(max_topup) = config.max_topup_per_rebalance {
        if amount > max_topup {
            amount = max_topup;
        }
    }
    if let Some(max_balance) = config.max_balance {
        if max_balance > balance {
            let room = max_balance - balance;
            if amount > room {
                amount = room;
            }
        } else {
            return skip("Balance already at or above max_balance", cyclical_deficit, lifetime_deficit);
        }
    }
    if let Some(max_lifetime) = config.lifetime_received_maximum {
        if max_lifetime > minted {
            let remaining = max_lifetime - minted;
            if amount > remaining {
                amount = remaining;
            }
        } else {
            return skip("Lifetime maximum already reached", cyclical_deficit, lifetime_deficit);
        }
    }
    if let Some(max_per_op) = policy.max_mint_per_operation {
        if amount > max_per_op {
            amount = max_per_op;
        }
    }
    if amount == 0 {
        return skip(
            "Amount capped to zero by policy or config limits",
            cyclical_deficit,
            lifetime_deficit,
        );
    }
    Ok(
        ComputedRebalance {
            action: RebalanceAction::Minted,
            mint_amount: amount,
            cyclical_deficit,
            lifetime_deficit,
        },
    )
}

} // verus!
