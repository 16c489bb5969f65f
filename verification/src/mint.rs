//! The decisions of the mint flows.  A rebalance or a manual top-up reads
//! the state, waits for the ledger, and writes the state back; each step
//! that touches the state is a function here, and the caller performs the
//! ledger calls in between.
//!
//! Rebalance: [`rebalance_begin`] (lock), ledger balance query,
//! [`rebalance_plan`] (decide, unlock unless minting), ledger mint,
//! [`rebalance_commit`] (record, unlock) or [`release_mint_lock`] on a
//! ledger error.
//!
//! Manual top-up: [`manual_topup_begin`] (replay or lock and mark the key
//! pending), ledger balance query, [`validate_manual_topup_inputs`],
//! ledger mint, [`manual_topup_commit`] or [`rollback_manual_mint_begin`].
//!
//! [`release_mint_lock`]: crate::admin::release_mint_lock
//! [`rollback_manual_mint_begin`]: crate::admin::rollback_manual_mint_begin
use vstd::prelude::*;

use candid::Principal;

use crate::admin::release_mint_lock;
use crate::model::{
    GlobalPolicy, IdempotencyEntry, IdempotencyRecord, MintEvent, MinterError, RebalanceAction,
    RebalanceActionView, RebalanceResponse, ReserveConfig, ReserveRecord,
};
use crate::params::{ManualTopupArg, ManualTopupResponse, PreviewRebalanceResponse};
use crate::reserve::{
    available_mint_budget, capped, check_rate_limits, compute_rebalance, is_rate_limit_error,
    mint_budget, planned_rebalance, prune_old_events, rate_limit_breach, recent_at,
};
use crate::state::{
    IdempotencyItem, State, accounts_distinct, configs_valid, keeps_completed_keys, lemma_key_map_push, lemma_key_map_set,
    set_contains, set_insert, set_remove,
};

verus! {

/// What a mint flow reads from the state before it waits for the ledger.
#[derive(Debug)]
pub struct MintSnapshot {
    /// The ledger to call.
    pub ledger_id: Principal,
    /// The reserve's configuration.
    pub config: ReserveConfig,
    /// The reserve's lifetime total.
    pub lifetime_minted: u64,
    /// The reserve's recent mints.
    pub mint_events: Vec<MintEvent>,
    /// The global policy.
    pub policy: GlobalPolicy,
}

/// The snapshot holds the state's values for the reserve.
pub open spec fn snapshot_of(state: State, id: u64, s: MintSnapshot) -> bool {
    &&& s.ledger_id == state.ledger_id
    &&& s.config == state.reserve(id).config
    &&& s.lifetime_minted == state.reserve(id).lifetime_minted
    &&& s.mint_events@ == state.reserve(id).mint_events@
    &&& s.policy == state.global_policy
}

/// Only the mint locks differ between the two states.
pub open spec fn same_but_locks(a: State, b: State) -> bool {
    &&& a.ledger_id == b.ledger_id
    &&& a.next_reserve_id == b.next_reserve_id
    &&& a.reserves == b.reserves
    &&& a.global_policy == b.global_policy
    &&& a.idempotency == b.idempotency
}

/// The mint history of a reserve after minting `amount` at `now_ns`: the
/// new event appended, events older than a year dropped.
pub open spec fn events_after_mint(events: Seq<MintEvent>, amount: u64, now_ns: u64) -> Seq<MintEvent> {
    events.push(MintEvent { timestamp_ns: now_ns, amount }).filter(recent_at(now_ns))
}

/// `after` is `before` with a mint of `amount` at `now_ns` recorded on the
/// reserve `id`.
pub open spec fn minted_into(
    before: Map<u64, ReserveRecord>,
    after: Map<u64, ReserveRecord>,
    id: u64,
    amount: u64,
    now_ns: u64,
) -> bool {
    &&& after.dom() == before.dom()
    &&& forall|other: u64| #[trigger] before.contains_key(other) && other != id ==> after[other]
        == before[other]
    &&& after[id].config == before[id].config
    &&& after[id].lifetime_minted == before[id].lifetime_minted + amount
    &&& after[id].mint_events@ == events_after_mint(before[id].mint_events@, amount, now_ns)
}

/// Recording the mint is possible without overflowing the lifetime total.
pub open spec fn mint_recordable(state: State, id: u64, amount: u64) -> bool {
    state.has_reserve(id) ==> state.reserve(id).lifetime_minted + amount <= u64::MAX
}

/// Whether the mint of `amount` can be recorded on the reserve without
/// overflowing its lifetime total (the mint commits require it).
pub fn can_record_mint(state: &State, id: u64, amount: u64) -> (r: bool)
    requires
        state.wf(),
    ensures
        r == mint_recordable(*state, id, amount),
{
    match state.reserves.get(&id) {
        Some(record) => record.lifetime_minted <= u64::MAX - amount,
        None => true,
    }
}

fn take_snapshot(state: &State, id: u64, record: &ReserveRecord) -> (s: MintSnapshot)
    requires
        state.has_reserve(id),
        state.reserve(id) == *record,
    ensures
        snapshot_of(*state, id, s),
{
    let events = record.mint_events.clone();
    assert(events@ =~= record.mint_events@);
    MintSnapshot {
        ledger_id: state.ledger_id,
        config: record.config.clone(),
        lifetime_minted: record.lifetime_minted,
        mint_events: events,
        policy: state.global_policy,
    }
}

/// Records a mint on the reserve: adds to its lifetime total, appends the
/// event and prunes events older than a year.
fn record_mint(state: &mut State, id: u64, amount: u64, now_ns: u64)
    requires
        old(state).wf(),
        old(state).has_reserve(id),
        old(state).reserve(id).lifetime_minted + amount <= u64::MAX,
    ensures
        final(state).wf(),
        minted_into(old(state).reserves@, final(state).reserves@, id, amount, now_ns),
        final(state).ledger_id == old(state).ledger_id,
        final(state).next_reserve_id == old(state).next_reserve_id,
        final(state).global_policy == old(state).global_policy,
        final(state).idempotency == old(state).idempotency,
        final(state).reserve_mint_inflight == old(state).reserve_mint_inflight,
        configs_valid(old(state).reserves@) ==> configs_valid(final(state).reserves@),
        accounts_distinct(old(state).reserves@) ==> accounts_distinct(final(state).reserves@),
{
    let ghost before = state.reserves@;
    if let Some(mut record) = state.reserves.remove(&id) {
        record.lifetime_minted = record.lifetime_minted + amount;
        record.mint_events.push(MintEvent { timestamp_ns: now_ns, amount });
        prune_old_events(&mut record.mint_events, now_ns);
        state.reserves.insert(id, record);
    }
    proof {
        let rs = state.reserves@;
        assert(rs.dom() =~= before.dom());
        if accounts_distinct(before) {
            assert forall|i: u64, j: u64|
                rs.contains_key(i) && rs.contains_key(j) && i != j implies !crate::model::same_account(
                #[trigger] rs[i].config.account,
                #[trigger] rs[j].config.account,
            ) by {
                assert(!crate::model::same_account(before[i].config.account, before[j].config.account));
            }
        }
    }
}

// ---------------------------------------------------------------------------
// Rebalance
// ---------------------------------------------------------------------------

/// Starts a rebalance: looks the reserve up and takes its mint lock.
pub fn rebalance_begin(state: &mut State, id: u64) -> (r: Result<MintSnapshot, MinterError>)
    requires
        old(state).wf(),
    ensures
        keeps_completed_keys(*old(state), *final(state), None),
        final(state).wf(),
        !old(state).has_reserve(id) ==> r == Err::<MintSnapshot, MinterError>(
            MinterError::ReserveNotFound { id },
        ) && *final(state) == *old(state),
        old(state).has_reserve(id) && old(state).inflight().contains(id) ==> r == Err::<
            MintSnapshot,
            MinterError,
        >(MinterError::ReserveOperationInProgress { id }) && *final(state) == *old(state),
        old(state).has_reserve(id) && !old(state).inflight().contains(id) ==> (r matches Ok(s)
            && snapshot_of(*old(state), id, s) && final(state).inflight() == old(
            state,
        ).inflight().insert(id) && same_but_locks(*final(state), *old(state))),
{
    let snapshot = match state.reserves.get(&id) {
        Some(record) => {
            if set_contains(&state.reserve_mint_inflight, id) {
                return Err(MinterError::ReserveOperationInProgress { id });
            }
            take_snapshot(state, id, record)
        },
        None => {
            return Err(MinterError::ReserveNotFound { id });
        },
    };
    set_insert(&mut state.reserve_mint_inflight, id);
    Ok(snapshot)
}

/// The next step of a rebalance once the balance is known.
#[derive(Debug)]
pub enum RebalanceStep {
    /// The rebalance is over (nothing to mint); the lock is released.
    Done(RebalanceResponse),
    /// Mint this amount; the lock stays taken.
    Mint { amount: u64 },
}

/// The response describes a rebalance of the reserve that minted nothing.
pub open spec fn unminted_response(
    resp: RebalanceResponse,
    id: u64,
    action: RebalanceActionView,
    balance: u64,
) -> bool {
    &&& resp.reserve_id == id
    &&& resp.action@ == action
    &&& resp.balance_before == balance
    &&& resp.minted_amount == 0
    &&& resp.ledger_block_index is None
}

/// Decides a rebalance from the snapshot and the ledger balance: the
/// amount of [`crate::reserve::compute_rebalance`], lowered to the
/// rate-limit budget; an exhausted budget skips the rebalance.  Unless the
/// answer is to mint, the lock is released.
pub fn rebalance_plan(
    state: &mut State,
    id: u64,
    snapshot: &MintSnapshot,
    balance: u64,
    now_ns: u64,
) -> (r: Result<RebalanceStep, MinterError>)
    requires
        old(state).wf(),
    ensures
        keeps_completed_keys(*old(state), *final(state), None),
        final(state).wf(),
        same_but_locks(*final(state), *old(state)),
        ({
            let plan = planned_rebalance(
                snapshot.config,
                balance,
                snapshot.lifetime_minted,
                snapshot.policy,
            );
            let budget = mint_budget(snapshot.config.rate_limits, snapshot.mint_events@, now_ns);
            match plan {
                Err(e) => r == Err::<RebalanceStep, MinterError>(e) && final(state).inflight()
                    == old(state).inflight().remove(id),
                Ok(c) => if c.action is Minted {
                    if budget == Some(0u64) {
                        r matches Ok(RebalanceStep::Done(resp)) && unminted_response(
                            resp,
                            id,
                            RebalanceActionView::Skipped { reason: "Rate limit budget exhausted"@ },
                            balance,
                        ) && final(state).inflight() == old(state).inflight().remove(id)
                    } else {
                        r == Ok::<RebalanceStep, MinterError>(
                            RebalanceStep::Mint { amount: capped(c.mint_amount, budget) },
                        ) && *final(state) == *old(state)
                    }
                } else {
                    r matches Ok(RebalanceStep::Done(resp)) && unminted_response(
                        resp,
                        id,
                        c.action,
                        balance,
                    ) && final(state).inflight() == old(state).inflight().remove(id)
                },
            }
        }),
{
    let computed = match compute_rebalance(
        &snapshot.config,
        &balance,
        &snapshot.lifetime_minted,
        &snapshot.policy,
    ) {
        Ok(c) => c,
        Err(e) => {
            release_mint_lock(state, id);
            return Err(e);
        },
    };
    match computed.action {
        RebalanceAction::Minted => {
            let mut amount = computed.mint_amount;
            let budget = available_mint_budget(
                snapshot.config.rate_limits.as_ref(),
                snapshot.mint_events.as_slice(),
                now_ns,
            );
            if let Some(b) = budget {
                if b == 0 {
                    release_mint_lock(state, id);
                    return Ok(
                        RebalanceStep::Done(
                            RebalanceResponse {
                                reserve_id: id,
                                action: RebalanceAction::Skipped {
                                    reason: String::from_str("Rate limit budget exhausted"),
                                },
                                balance_before: balance,
                                minted_amount: 0,
                                ledger_block_index: None,
                            },
                        ),
                    );
                }
                if amount > b {
                    amount = b;
                }
            }
            Ok(RebalanceStep::Mint { amount })
        },
        action => {
            release_mint_lock(state, id);
            Ok(
                RebalanceStep::Done(
                    RebalanceResponse {
                        reserve_id: id,
                        action,
                        balance_before: balance,
                        minted_amount: 0,
                        ledger_block_index: None,
                    },
                ),
            )
        },
    }
}

/// Reason given when a reserve disappeared while its mint was in flight.
pub open spec fn missing_after_mint_reason() -> Seq<char> {
    "reserve missing after successful ledger mint; call release_stuck_mint_state if needed"@
}

/// Finishes a rebalance after a successful ledger mint: releases the lock
/// and records the mint on the reserve.
pub fn rebalance_commit(
    state: &mut State,
    id: u64,
    amount: u64,
    now_ns: u64,
    balance_before: u64,
    block_index: u64,
) -> (r: Result<RebalanceResponse, MinterError>)
    requires
        old(state).wf(),
        mint_recordable(*old(state), id, amount),
    ensures
        keeps_completed_keys(*old(state), *final(state), None),
        final(state).wf(),
        final(state).inflight() == old(state).inflight().remove(id),
        final(state).ledger_id == old(state).ledger_id,
        final(state).next_reserve_id == old(state).next_reserve_id,
        final(state).global_policy == old(state).global_policy,
        final(state).idempotency == old(state).idempotency,
        configs_valid(old(state).reserves@) ==> configs_valid(final(state).reserves@),
        accounts_distinct(old(state).reserves@) ==> accounts_distinct(final(state).reserves@),
        !old(state).has_reserve(id) ==> (r matches Err(MinterError::InternalInvariantViolated {
            reason,
        }) && reason@ == missing_after_mint_reason() && final(state).reserves == old(
            state,
        ).reserves),
        old(state).has_reserve(id) ==> (r matches Ok(resp) && resp.reserve_id == id
            && resp.action is Minted && resp.balance_before == balance_before
            && resp.minted_amount == amount && resp.ledger_block_index == Some(block_index)
            && minted_into(
            old(state).reserves@,
            final(state).reserves@,
            id,
            amount,
            now_ns,
        )),
{
    set_remove(&mut state.reserve_mint_inflight, id);
    if !state.reserves.contains_key(&id) {
            return Err(
                MinterError::InternalInvariantViolated {
                    reason: String::from_str(
                        "reserve missing after successful ledger mint; call release_stuck_mint_state if needed",
                    ),
                },
            );
    }
    record_mint(state, id, amount, now_ns);
    Ok(
        RebalanceResponse {
            reserve_id: id,
            action: RebalanceAction::Minted,
            balance_before,
            minted_amount: amount,
            ledger_block_index: Some(block_index),
        },
    )
}

// ---------------------------------------------------------------------------
// Manual top-up
// ---------------------------------------------------------------------------

/// The key's view, when one is given.
pub open spec fn opt_key(key: Option<String>) -> Option<Seq<char>> {
    match key {
        Some(k) => Some(k@),
        None => None,
    }
}

/// The record stored for the key, when a key is given and known.
pub open spec fn key_record(state: State, key: Option<Seq<char>>) -> Option<IdempotencyRecord> {
    match key {
        Some(k) => if state.keys().contains_key(k) {
            Some(state.keys()[k])
        } else {
            None
        },
        None => None,
    }
}

/// The response replayed for a completed key.
pub open spec fn replay_response(e: IdempotencyEntry) -> ManualTopupResponse {
    ManualTopupResponse {
        reserve_id: e.reserve_id,
        minted_amount: e.minted_amount,
        ledger_block_index: e.ledger_block_index,
    }
}

/// How a manual top-up starts.
#[derive(Debug)]
pub enum ManualTopupBegin {
    /// The key already completed: its result, with nothing minted.
    Cached(ManualTopupResponse),
    /// The lock is taken (and the key marked pending): mint next.
    Started(MintSnapshot),
}

/// Stores the record for the key, replacing any record it had.
fn put_key(state: &mut State, key: &str, record: IdempotencyRecord)
    requires
        old(state).wf(),
    ensures
        final(state).wf(),
        final(state).keys() == old(state).keys().insert(key@, record),
        final(state).reserves == old(state).reserves,
        final(state).next_reserve_id == old(state).next_reserve_id,
        final(state).ledger_id == old(state).ledger_id,
        final(state).global_policy == old(state).global_policy,
        final(state).reserve_mint_inflight == old(state).reserve_mint_inflight,
{
    match state.find_key(key) {
        Some(i) => {
            let ghost before = state.idempotency@;
            let item = state.idempotency.remove(i);
            let new_item = IdempotencyItem { key: item.key, record };
            state.idempotency.insert(i, new_item);
            proof {
                assert(state.idempotency@ =~= before.update(i as int, new_item));
                lemma_key_map_set(before, i as int, new_item);
            }
        },
        None => {
            let new_item = IdempotencyItem { key: String::from_str(key), record };
            proof {
                lemma_key_map_push(state.idempotency@, new_item);
            }
            state.idempotency.push(new_item);
        },
    }
}

/// Starts a manual top-up.  A key that already completed replays its
/// result; a key still pending is refused.  Otherwise the reserve is looked
/// up, its mint lock is taken and the key (if any) is marked pending.
pub fn manual_topup_begin(state: &mut State, arg: &ManualTopupArg) -> (r: Result<
    ManualTopupBegin,
    MinterError,
>)
    requires
        old(state).wf(),
    ensures
        keeps_completed_keys(*old(state), *final(state), None),
        final(state).wf(),
        final(state).reserves == old(state).reserves,
        final(state).next_reserve_id == old(state).next_reserve_id,
        final(state).ledger_id == old(state).ledger_id,
        final(state).global_policy == old(state).global_policy,
        ({
            let id = arg.reserve_id;
            match key_record(*old(state), opt_key(arg.idempotency_key)) {
                Some(IdempotencyRecord::Completed(e)) => r == Ok::<ManualTopupBegin, MinterError>(
                    ManualTopupBegin::Cached(replay_response(e)),
                ) && *final(state) == *old(state),
                Some(IdempotencyRecord::Pending { .. }) => (r matches Err(
                    MinterError::IdempotencyOperationInProgress { key },
                ) && opt_key(arg.idempotency_key) == Some(key@)) && *final(state) == *old(state),
                None => if !old(state).has_reserve(id) {
                    r == Err::<ManualTopupBegin, MinterError>(MinterError::ReserveNotFound { id })
                        && *final(state) == *old(state)
                } else if old(state).inflight().contains(id) {
                    r == Err::<ManualTopupBegin, MinterError>(
                        MinterError::ReserveOperationInProgress { id },
                    ) && *final(state) == *old(state)
                } else {
                    &&& r matches Ok(ManualTopupBegin::Started(s)) && snapshot_of(*old(state), id, s)
                    &&& final(state).inflight() == old(state).inflight().insert(id)
                    &&& match opt_key(arg.idempotency_key) {
                        Some(k) => final(state).keys() == old(state).keys().insert(
                            k,
                            IdempotencyRecord::Pending { reserve_id: id },
                        ),
                        None => final(state).idempotency == old(state).idempotency,
                    }
                },
            }
        }),
{
    let key: Option<&str> = match &arg.idempotency_key {
        Some(k) => Some(k.as_str()),
        None => None,
    };
    if let Some(k) = key {
        if let Some(i) = state.find_key(k) {
            match state.idempotency[i].record {
                IdempotencyRecord::Completed(e) => {
                    return Ok(
                        ManualTopupBegin::Cached(
                            ManualTopupResponse {
                                reserve_id: e.reserve_id,
                                minted_amount: e.minted_amount,
                                ledger_block_index: e.ledger_block_index,
                            },
                        ),
                    );
                },
                IdempotencyRecord::Pending { .. } => {
                    return Err(
                        MinterError::IdempotencyOperationInProgress { key: String::from_str(k) },
                    );
                },
            }
        }
    }
    let snapshot = match state.reserves.get(&arg.reserve_id) {
        Some(record) => {
            if set_contains(&state.reserve_mint_inflight, arg.reserve_id) {
                return Err(MinterError::ReserveOperationInProgress { id: arg.reserve_id });
            }
            take_snapshot(state, arg.reserve_id, record)
        },
        None => {
            return Err(MinterError::ReserveNotFound { id: arg.reserve_id });
        },
    };
    set_insert(&mut state.reserve_mint_inflight, arg.reserve_id);
    if let Some(k) = key {
        put_key(state, k, IdempotencyRecord::Pending { reserve_id: arg.reserve_id });
    }
    Ok(ManualTopupBegin::Started(snapshot))
}

/// The room left under a balance cap: how much may still be minted to a
/// reserve holding `balance`.
pub open spec fn balance_room(max_balance: u64, balance: u64) -> u64 {
    if balance < max_balance {
        (max_balance - balance) as u64
    } else {
        0
    }
}

/// The first check of a manual top-up that fails, among those that do not
/// depend on the mint history: minting enabled, reserve enabled, manual
/// top-ups allowed, per-operation cap, lifetime maximum, and the balance
/// cap (the reserve's ledger balance plus the amount stays within
/// `max_balance`).
pub open spec fn topup_precheck(
    id: u64,
    amount: u64,
    policy: GlobalPolicy,
    config: ReserveConfig,
    lifetime_minted: u64,
    balance: u64,
) -> Option<MinterError> {
    if !policy.minting_enabled {
        Some(MinterError::MintingDisabled)
    } else if !config.enabled {
        Some(MinterError::ReserveDisabled { id })
    } else if !config.allow_manual_topup {
        Some(MinterError::ManualTopupNotAllowed { id })
    } else if policy.max_mint_per_operation matches Some(m) && amount > m {
        Some(MinterError::AmountExceedsLimit { requested: amount, limit: policy.max_mint_per_operation->0 })
    } else if config.lifetime_received_maximum matches Some(lm) && lifetime_minted + amount > lm {
        Some(MinterError::AmountExceedsLimit { requested: amount, limit: config.lifetime_received_maximum->0 })
    } else if config.max_balance matches Some(mb) && balance + amount > mb {
        Some(MinterError::AmountExceedsLimit {
            requested: amount,
            limit: balance_room(config.max_balance->0, balance),
        })
    } else {
        None
    }
}

/// Checks a manual top-up against the policy, the reserve's flags, the
/// per-operation cap, the lifetime maximum, the balance cap (given the
/// reserve's ledger balance) and (hard) the rate limits.
pub fn validate_manual_topup_inputs(
    arg: &ManualTopupArg,
    policy: &GlobalPolicy,
    config: &ReserveConfig,
    lifetime_minted: &u64,
    balance: &u64,
    mint_events: &[MintEvent],
    now_ns: u64,
) -> (r: Result<(), MinterError>)
    ensures
        match topup_precheck(arg.reserve_id, arg.amount, *policy, *config, *lifetime_minted, *balance) {
            Some(e) => r == Err::<(), MinterError>(e),
            None => match config.rate_limits {
                Some(l) => match rate_limit_breach(l, mint_events@, arg.amount, now_ns) {
                    Some(b) => r matches Err(e) && is_rate_limit_error(e, b, arg.amount),
                    None => r is Ok,
                },
                None => r is Ok,
            },
        },
{
    if !policy.minting_enabled {
        return Err(MinterError::MintingDisabled);
    }
    if !config.enabled {
        return Err(MinterError::ReserveDisabled { id: arg.reserve_id });
    }
    if !config.allow_manual_topup {
        return Err(MinterError::ManualTopupNotAllowed { id: arg.reserve_id });
    }
    if let Some(max) = policy.max_mint_per_operation {
        if arg.amount > max {
            return Err(MinterError::AmountExceedsLimit { requested: arg.amount, limit: max });
        }
    }
    if let Some(max_lifetime) = config.lifetime_received_maximum {
        if (*lifetime_minted as u128) + (arg.amount as u128) > (max_lifetime as u128) {
            return Err(MinterError::AmountExceedsLimit { requested: arg.amount, limit: max_lifetime });
        }
    }
    if let Some(max_balance) = config.max_balance {
        if (*balance as u128) + (arg.amount as u128) > (max_balance as u128) {
            let room: u64 = if *balance < max_balance {
                max_balance - *balance
            } else {
                0
            };
            return Err(MinterError::AmountExceedsLimit { requested: arg.amount, limit: room });
        }
    }
    if let Some(limits) = &config.rate_limits {
        check_rate_limits(limits, mint_events, &arg.amount, now_ns)
    } else {
        Ok(())
    }
}

/// Finishes a manual top-up after a successful ledger mint: releases the
/// lock, records the mint on the reserve and completes the key.
pub fn manual_topup_commit(
    state: &mut State,
    arg: &ManualTopupArg,
    block_index: u64,
    now_ns: u64,
) -> (r: Result<ManualTopupResponse, MinterError>)
    requires
        old(state).wf(),
        mint_recordable(*old(state), arg.reserve_id, arg.amount),
    ensures
        keeps_completed_keys(*old(state), *final(state), opt_key(arg.idempotency_key)),
        final(state).wf(),
        final(state).inflight() == old(state).inflight().remove(arg.reserve_id),
        final(state).ledger_id == old(state).ledger_id,
        final(state).next_reserve_id == old(state).next_reserve_id,
        final(state).global_policy == old(state).global_policy,
        configs_valid(old(state).reserves@) ==> configs_valid(final(state).reserves@),
        accounts_distinct(old(state).reserves@) ==> accounts_distinct(final(state).reserves@),
        !old(state).has_reserve(arg.reserve_id) ==> (r matches Err(
            MinterError::InternalInvariantViolated { reason },
        ) && reason@ == missing_after_mint_reason() && final(state).reserves == old(
            state,
        ).reserves && final(state).idempotency == old(state).idempotency),
        old(state).has_reserve(arg.reserve_id) ==> {
            &&& r == Ok::<ManualTopupResponse, MinterError>(
                ManualTopupResponse {
                    reserve_id: arg.reserve_id,
                    minted_amount: arg.amount,
                    ledger_block_index: block_index,
                },
            )
            &&& minted_into(
                old(state).reserves@,
                final(state).reserves@,
                arg.reserve_id,
                arg.amount,
                now_ns,
            )
            &&& match opt_key(arg.idempotency_key) {
                Some(k) => final(state).keys() == old(state).keys().insert(
                    k,
                    IdempotencyRecord::Completed(
                        IdempotencyEntry {
                            ledger_block_index: block_index,
                            minted_amount: arg.amount,
                            reserve_id: arg.reserve_id,
                            executed_at_ns: now_ns,
                        },
                    ),
                ),
                None => final(state).idempotency == old(state).idempotency,
            }
        },
{
    set_remove(&mut state.reserve_mint_inflight, arg.reserve_id);
    if !state.reserves.contains_key(&arg.reserve_id) {
            return Err(
                MinterError::InternalInvariantViolated {
                    reason: String::from_str(
                        "reserve missing after successful ledger mint; call release_stuck_mint_state if needed",
                    ),
                },
            );
    }
    record_mint(state, arg.reserve_id, arg.amount, now_ns);
    if let Some(k) = &arg.idempotency_key {
        put_key(
            state,
            k.as_str(),
            IdempotencyRecord::Completed(
                IdempotencyEntry {
                    ledger_block_index: block_index,
                    minted_amount: arg.amount,
                    reserve_id: arg.reserve_id,
                    executed_at_ns: now_ns,
                },
            ),
        );
    }
    Ok(
        ManualTopupResponse {
            reserve_id: arg.reserve_id,
            minted_amount: arg.amount,
            ledger_block_index: block_index,
        },
    )
}

// ---------------------------------------------------------------------------
// Preview
// ---------------------------------------------------------------------------

/// Reads what a preview of the reserve needs; the state is not changed.
pub fn preview_begin(state: &State, id: u64) -> (r: Result<MintSnapshot, MinterError>)
    requires
        state.wf(),
    ensures
        !state.has_reserve(id) ==> r == Err::<MintSnapshot, MinterError>(
            MinterError::ReserveNotFound { id },
        ),
        state.has_reserve(id) ==> (r matches Ok(s) && snapshot_of(*state, id, s)),
{
    match state.reserves.get(&id) {
        Some(record) => Ok(take_snapshot(state, id, record)),
        None => Err(MinterError::ReserveNotFound { id }),
    }
}

/// What a rebalance would do, from the snapshot and the ledger balance:
/// the computed action and deficits, and the amount lowered to the
/// rate-limit budget.  A mint that an exhausted budget stops is reported
/// as skipped, as [`rebalance_plan`] decides it.
pub fn preview_outcome(
    id: u64,
    snapshot: &MintSnapshot,
    balance: u64,
    now_ns: u64,
) -> (r: Result<PreviewRebalanceResponse, MinterError>)
    ensures
        ({
            let plan = planned_rebalance(
                snapshot.config,
                balance,
                snapshot.lifetime_minted,
                snapshot.policy,
            );
            let budget = mint_budget(snapshot.config.rate_limits, snapshot.mint_events@, now_ns);
            match plan {
                Err(e) => r == Err::<PreviewRebalanceResponse, MinterError>(e),
                Ok(c) => r matches Ok(p) && p.reserve_id == id && p.action@ == (if c.action is Minted
                    && budget == Some(0u64) {
                    RebalanceActionView::Skipped { reason: "Rate limit budget exhausted"@ }
                } else {
                    c.action
                }) && p.current_balance == balance && p.target_balance
                    == snapshot.config.target_balance && p.cyclical_deficit == c.cyclical_deficit
                    && p.lifetime_deficit == c.lifetime_deficit && p.would_mint == capped(
                    c.mint_amount,
                    budget,
                ) && p.rate_limit_budget == budget,
            }
        }),
{
    let computed = match compute_rebalance(
        &snapshot.config,
        &balance,
        &snapshot.lifetime_minted,
        &snapshot.policy,
    ) {
        Ok(c) => c,
        Err(e) => {
            return Err(e);
        },
    };
    let budget = available_mint_budget(
        snapshot.config.rate_limits.as_ref(),
        snapshot.mint_events.as_slice(),
        now_ns,
    );
    let mut would_mint = computed.mint_amount;
    let mut action = computed.action;
    if let Some(b) = budget {
        if would_mint > b {
            would_mint = b;
        }
        if b == 0 && matches!(action, RebalanceAction::Minted) {
            action = RebalanceAction::Skipped { reason: String::from_str("Rate limit budget exhausted") };
        }
    }
    Ok(
        PreviewRebalanceResponse {
            reserve_id: id,
            action,
            current_balance: balance,
            target_balance: snapshot.config.target_balance,
            cyclical_deficit: computed.cyclical_deficit,
            lifetime_deficit: computed.lifetime_deficit,
            would_mint,
            rate_limit_budget: budget,
        },
    )
}

} // verus!
