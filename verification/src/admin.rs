//! Administrative operations on the state: reserve registration, partial
//! updates, removal, the global policy, and recovery of stuck mint locks.
use vstd::prelude::*;

use crate::model::{
    AddReserveArg, Arg, GlobalPolicy, IdempotencyRecord, MinterError, ReserveAccount, ReserveConfig,
    ReserveRecord, is_invalid_config, same_account,
};
use crate::params::UpdateReserveArg;
use crate::reserve::{config_error, config_valid, validate_add_reserve_arg, validate_reserve_config};
use crate::state::{
    IdempotencyItem, State, accounts_distinct, keeps_completed_keys, configs_valid, entry_ids, lemma_entries, yields_entries,
    lemma_key_map_remove, set_remove,
};
use vstd::std_specs::btree::spec_btree_map_iter;
use vstd::std_specs::iter::IteratorSpec;

verus! {

/// The configuration a new reserve is stored with.
pub open spec fn config_of_arg(arg: AddReserveArg) -> ReserveConfig {
    ReserveConfig {
        account: arg.account,
        min_balance: arg.min_balance,
        target_balance: arg.target_balance,
        max_balance: arg.max_balance,
        max_topup_per_rebalance: arg.max_topup_per_rebalance,
        lifetime_received_minimum: arg.lifetime_received_minimum,
        lifetime_received_maximum: arg.lifetime_received_maximum,
        rate_limits: arg.rate_limits,
        enabled: arg.enabled,
        allow_manual_topup: arg.allow_manual_topup,
        allow_auto_rebalance: arg.allow_auto_rebalance,
        purpose: arg.purpose,
        label: arg.label,
    }
}

/// Some registered reserve denotes the same ledger account.
pub open spec fn account_taken(rs: Map<u64, ReserveRecord>, account: ReserveAccount) -> bool {
    exists|id: u64| rs.contains_key(id) && same_account(#[trigger] rs[id].config.account, account)
}

/// `after` is `before` with a new reserve under `id`: the configuration
/// given, a zero lifetime total and no mint history.
pub open spec fn added_reserve(
    before: Map<u64, ReserveRecord>,
    after: Map<u64, ReserveRecord>,
    id: u64,
    config: ReserveConfig,
) -> bool {
    &&& !before.contains_key(id)
    &&& after.dom() == before.dom().insert(id)
    &&& forall|other: u64| #[trigger] before.contains_key(other) ==> after[other] == before[other]
    &&& after[id].config == config
    &&& after[id].lifetime_minted == 0
    &&& after[id].mint_events@.len() == 0
}

/// Everything but the reserves is unchanged.
pub open spec fn same_besides_reserves(a: State, b: State) -> bool {
    &&& a.ledger_id == b.ledger_id
    &&& a.global_policy == b.global_policy
    &&& a.idempotency == b.idempotency
    &&& a.reserve_mint_inflight == b.reserve_mint_inflight
}

/// Registers a new reserve: validates the configuration, refuses an
/// account that is already registered, assigns the next id and stores the
/// reserve with a zero lifetime total and no mint history.
#[verifier::loop_isolation(false)]
pub fn add_reserve_impl(state: &mut State, arg: AddReserveArg) -> (r: Result<u64, MinterError>)
    requires
        old(state).wf(),
        old(state).next_reserve_id < u64::MAX,
    ensures
        keeps_completed_keys(*old(state), *final(state), None),
        final(state).wf(),
        configs_valid(old(state).reserves@) ==> configs_valid(final(state).reserves@),
        accounts_distinct(old(state).reserves@) ==> accounts_distinct(final(state).reserves@),
        match config_error(
            arg.min_balance,
            arg.target_balance,
            arg.max_balance,
            arg.lifetime_received_minimum,
            arg.lifetime_received_maximum,
            arg.rate_limits,
            arg.label@,
        ) {
            Some(reason) => r matches Err(e) && is_invalid_config(e, reason) && *final(state)
                == *old(state),
            None => if account_taken(old(state).reserves@, arg.account) {
                r == Err::<u64, MinterError>(
                    MinterError::ReserveAccountAlreadyExists { account: arg.account },
                ) && *final(state) == *old(state)
            } else {
                &&& r == Ok::<u64, MinterError>(old(state).next_reserve_id)
                &&& final(state).next_reserve_id == old(state).next_reserve_id + 1
                &&& added_reserve(
                    old(state).reserves@,
                    final(state).reserves@,
                    old(state).next_reserve_id,
                    config_of_arg(arg),
                )
                &&& same_besides_reserves(*final(state), *old(state))
            },
        },
{
    let v = validate_add_reserve_arg(&arg);
    if let Err(e) = v {
        return Err(e);
    }
    let ghost v = spec_btree_map_iter(&state.reserves).remaining();
    for e in it: state.reserves.iter()
        invariant
            it.seq() == v,
            forall|i: int|
                0 <= i < it.index() ==> !same_account((#[trigger] v[i]).1.config.account, arg.account),
    {
        if e.1.config.account.same_as(&arg.account) {
            proof {
                assert(state.reserves@.contains_key(*e.0));
                assert(same_account(state.reserves@[*e.0].config.account, arg.account));
            }
            return Err(MinterError::ReserveAccountAlreadyExists { account: arg.account });
        }
    }
    proof {
        assert(yields_entries(v, state.reserves@));
        lemma_entries(v, state.reserves@);
        assert forall|id: u64| state.reserves@.contains_key(id) implies !same_account(
            #[trigger] state.reserves@[id].config.account,
            arg.account,
        ) by {
            let i = choose|i: int| 0 <= i < v.len() && entry_ids(v)[i] == id;
            assert(!same_account(v[i].1.config.account, arg.account));
        }
    }
    let id = state.next_reserve_id;
    state.next_reserve_id = id + 1;
    let ghost before = state.reserves@;
    let config = ReserveConfig {
        account: arg.account,
        min_balance: arg.min_balance,
        target_balance: arg.target_balance,
        max_balance: arg.max_balance,
        max_topup_per_rebalance: arg.max_topup_per_rebalance,
        lifetime_received_minimum: arg.lifetime_received_minimum,
        lifetime_received_maximum: arg.lifetime_received_maximum,
        rate_limits: arg.rate_limits,
        enabled: arg.enabled,
        allow_manual_topup: arg.allow_manual_topup,
        allow_auto_rebalance: arg.allow_auto_rebalance,
        purpose: arg.purpose,
        label: arg.label,
    };
    state.reserves.insert(id, ReserveRecord { config, lifetime_minted: 0, mint_events: Vec::new() });
    proof {
        let rs = state.reserves@;
        assert(!before.contains_key(id));
        assert(rs.dom() =~= before.dom().insert(id));
        if accounts_distinct(before) {
            assert forall|i: u64, j: u64|
                rs.contains_key(i) && rs.contains_key(j) && i != j implies !same_account(
                #[trigger] rs[i].config.account,
                #[trigger] rs[j].config.account,
            ) by {
                if i != id && j != id {
                    assert(!same_account(before[i].config.account, before[j].config.account));
                } else if i != id {
                    assert(!same_account(before[i].config.account, arg.account));
                } else {
                    assert(!same_account(before[j].config.account, arg.account));
                }
            }
        }
    }
    Ok(id)
}

/// The configuration after applying a partial update.
pub open spec fn apply_update(c: ReserveConfig, a: UpdateReserveArg) -> ReserveConfig {
    ReserveConfig {
        account: c.account,
        min_balance: match a.min_balance {
            Some(v) => v,
            None => c.min_balance,
        },
        target_balance: match a.target_balance {
            Some(v) => v,
            None => c.target_balance,
        },
        max_balance: match a.max_balance {
            Some(v) => v,
            None => c.max_balance,
        },
        max_topup_per_rebalance: match a.max_topup_per_rebalance {
            Some(v) => v,
            None => c.max_topup_per_rebalance,
        },
        lifetime_received_minimum: match a.lifetime_received_minimum {
            Some(v) => Some(v),
            None => c.lifetime_received_minimum,
        },
        lifetime_received_maximum: match a.lifetime_received_maximum {
            Some(v) => v,
            None => c.lifetime_received_maximum,
        },
        rate_limits: match a.rate_limits {
            Some(v) => v,
            None => c.rate_limits,
        },
        enabled: match a.enabled {
            Some(v) => v,
            None => c.enabled,
        },
        allow_manual_topup: match a.allow_manual_topup {
            Some(v) => v,
            None => c.allow_manual_topup,
        },
        allow_auto_rebalance: match a.allow_auto_rebalance {
            Some(v) => v,
            None => c.allow_auto_rebalance,
        },
        purpose: match a.purpose {
            Some(v) => v,
            None => c.purpose,
        },
        label: match a.label {
            Some(v) => v,
            None => c.label,
        },
    }
}

/// The update would lower the lifetime minimum.
pub open spec fn lowers_lifetime_minimum(c: ReserveConfig, a: UpdateReserveArg) -> bool {
    a.lifetime_received_minimum matches Some(n) && c.lifetime_received_minimum matches Some(cur)
        && n < cur
}

/// Reason given when an update would lower the lifetime minimum.
pub open spec fn lifetime_minimum_reason() -> Seq<char> {
    "lifetime_received_minimum can only increase, not decrease"@
}

/// The configuration after the update, refused when it would lower the
/// lifetime minimum.
fn updated_config(current: &ReserveConfig, arg: UpdateReserveArg) -> (r: Result<
    ReserveConfig,
    MinterError,
>)
    ensures
        lowers_lifetime_minimum(*current, arg) ==> (r matches Err(e) && is_invalid_config(
            e,
            lifetime_minimum_reason(),
        )),
        !lowers_lifetime_minimum(*current, arg) ==> r == Ok::<ReserveConfig, MinterError>(
            apply_update(*current, arg),
        ),
{
    let lowers = match (arg.lifetime_received_minimum, current.lifetime_received_minimum) {
        (Some(new_min), Some(cur)) => new_min < cur,
        _ => false,
    };
    if lowers {
        return Err(
            MinterError::InvalidConfig {
                reason: String::from_str("lifetime_received_minimum can only increase, not decrease"),
            },
        );
    }
    let UpdateReserveArg {
        id: _,
        min_balance,
        target_balance,
        max_balance,
        max_topup_per_rebalance,
        lifetime_received_minimum,
        lifetime_received_maximum,
        rate_limits,
        enabled,
        allow_manual_topup,
        allow_auto_rebalance,
        purpose,
        label,
    } = arg;
    Ok(
        ReserveConfig {
            account: current.account,
            min_balance: match min_balance {
                Some(v) => v,
                None => current.min_balance,
            },
            target_balance: match target_balance {
                Some(v) => v,
                None => current.target_balance,
            },
            max_balance: match max_balance {
                Some(v) => v,
                None => current.max_balance,
            },
            max_topup_per_rebalance: match max_topup_per_rebalance {
                Some(v) => v,
                None => current.max_topup_per_rebalance,
            },
            lifetime_received_minimum: match lifetime_received_minimum {
                Some(v) => Some(v),
                None => current.lifetime_received_minimum,
            },
            lifetime_received_maximum: match lifetime_received_maximum {
                Some(v) => v,
                None => current.lifetime_received_maximum,
            },
            rate_limits: match rate_limits {
                Some(v) => v,
                None => current.rate_limits,
            },
            enabled: match enabled {
                Some(v) => v,
                None => current.enabled,
            },
            allow_manual_topup: match allow_manual_topup {
                Some(v) => v,
                None => current.allow_manual_topup,
            },
            allow_auto_rebalance: match allow_auto_rebalance {
                Some(v) => v,
                None => current.allow_auto_rebalance,
            },
            purpose: match purpose {
                Some(v) => v,
                None => current.purpose.clone(),
            },
            label: match label {
                Some(v) => v,
                None => current.label.clone(),
            },
        },
    )
}

/// Applies a partial update to a reserve's configuration.  The lifetime
/// minimum may only increase; the result is validated before it is stored;
/// the account, the lifetime total and the mint history are kept.
pub fn update_reserve_impl(state: &mut State, arg: UpdateReserveArg) -> (r: Result<(), MinterError>)
    requires
        old(state).wf(),
    ensures
        keeps_completed_keys(*old(state), *final(state), None),
        final(state).wf(),
        configs_valid(old(state).reserves@) ==> configs_valid(final(state).reserves@),
        accounts_distinct(old(state).reserves@) ==> accounts_distinct(final(state).reserves@),
        !old(state).has_reserve(arg.id) ==> r == Err::<(), MinterError>(
            MinterError::ReserveNotFound { id: arg.id },
        ) && *final(state) == *old(state),
        old(state).has_reserve(arg.id) ==> ({
            let rec = old(state).reserve(arg.id);
            let cfg = apply_update(rec.config, arg);
            if lowers_lifetime_minimum(rec.config, arg) {
                r matches Err(e) && is_invalid_config(e, lifetime_minimum_reason()) && *final(state)
                    == *old(state)
            } else {
                match config_error(
                    cfg.min_balance,
                    cfg.target_balance,
                    cfg.max_balance,
                    cfg.lifetime_received_minimum,
                    cfg.lifetime_received_maximum,
                    cfg.rate_limits,
                    cfg.label@,
                ) {
                    Some(reason) => r matches Err(e) && is_invalid_config(e, reason) && *final(state)
                        == *old(state),
                    None => {
                        &&& r is Ok
                        &&& final(state).reserves@ == old(state).reserves@.insert(
                            arg.id,
                            ReserveRecord {
                                config: cfg,
                                lifetime_minted: rec.lifetime_minted,
                                mint_events: rec.mint_events,
                            },
                        )
                        &&& final(state).next_reserve_id == old(state).next_reserve_id
                        &&& same_besides_reserves(*final(state), *old(state))
                    },
                }
            }
        }),
        r is Ok ==> old(state).has_reserve(arg.id) && final(state).has_reserve(arg.id) && (
        old(state).reserve(arg.id).config.lifetime_received_minimum matches Some(before)
            ==> final(state).reserve(arg.id).config.lifetime_received_minimum matches Some(after)
            && after >= before),
{
    let id = arg.id;
    let updated = match state.reserves.get(&id) {
        Some(record) => match updated_config(&record.config, arg) {
            Ok(c) => c,
            Err(e) => {
                return Err(e);
            },
        },
        None => {
            return Err(MinterError::ReserveNotFound { id });
        },
    };
    let v = validate_reserve_config(&updated);
    if let Err(e) = v {
        return Err(e);
    }
    let ghost before = state.reserves@;
    if let Some(mut record) = state.reserves.remove(&id) {
        record.config = updated;
        state.reserves.insert(id, record);
    }
    proof {
        let rs = state.reserves@;
        assert(rs.dom() =~= before.dom());
        if accounts_distinct(before) {
            assert forall|i: u64, j: u64|
                rs.contains_key(i) && rs.contains_key(j) && i != j implies !same_account(
                #[trigger] rs[i].config.account,
                #[trigger] rs[j].config.account,
            ) by {
                assert(!same_account(before[i].config.account, before[j].config.account));
            }
        }
    }
    Ok(())
}

/// Some pending idempotency record targets the reserve.
pub open spec fn pending_for(items: Seq<IdempotencyItem>, id: u64) -> bool {
    exists|i: int|
        0 <= i < items.len() && #[trigger] items[i].record == (IdempotencyRecord::Pending {
            reserve_id: id,
        })
}

/// Removes a reserve and returns its configuration.  Refused while a mint
/// to it is in flight or a manual top-up key is pending for it.
#[verifier::loop_isolation(false)]
pub fn remove_reserve_impl(state: &mut State, id: u64) -> (r: Result<ReserveConfig, MinterError>)
    requires
        old(state).wf(),
    ensures
        keeps_completed_keys(*old(state), *final(state), None),
        final(state).wf(),
        configs_valid(old(state).reserves@) ==> configs_valid(final(state).reserves@),
        accounts_distinct(old(state).reserves@) ==> accounts_distinct(final(state).reserves@),
        old(state).inflight().contains(id) || pending_for(old(state).idempotency@, id) ==> r
            == Err::<ReserveConfig, MinterError>(MinterError::ReserveOperationInProgress { id })
            && *final(state) == *old(state),
        !old(state).inflight().contains(id) && !pending_for(old(state).idempotency@, id)
            && !old(state).has_reserve(id) ==> r == Err::<ReserveConfig, MinterError>(
            MinterError::ReserveNotFound { id },
        ) && *final(state) == *old(state),
        !old(state).inflight().contains(id) && !pending_for(old(state).idempotency@, id)
            && old(state).has_reserve(id) ==> {
            &&& r == Ok::<ReserveConfig, MinterError>(old(state).reserve(id).config)
            &&& final(state).reserves@ == old(state).reserves@.remove(id)
            &&& !final(state).has_reserve(id)
            &&& final(state).next_reserve_id == old(state).next_reserve_id
            &&& same_besides_reserves(*final(state), *old(state))
        },
{
    if crate::state::set_contains(&state.reserve_mint_inflight, id) {
        return Err(MinterError::ReserveOperationInProgress { id });
    }
    let mut k: usize = 0;
    while k < state.idempotency.len()
        invariant
            k <= state.idempotency@.len(),
            forall|i: int|
                0 <= i < k ==> #[trigger] state.idempotency@[i].record != (IdempotencyRecord::Pending {
                    reserve_id: id,
                }),
        decreases state.idempotency.len() - k,
    {
        match state.idempotency[k].record {
            IdempotencyRecord::Pending { reserve_id } => {
                if reserve_id == id {
                    return Err(MinterError::ReserveOperationInProgress { id });
                }
            },
            IdempotencyRecord::Completed(_) => {},
        }
        k = k + 1;
    }
    if !state.reserves.contains_key(&id) {
        return Err(MinterError::ReserveNotFound { id });
    }
    match state.reserves.remove(&id) {
        Some(record) => Ok(record.config),
        None => Err(MinterError::ReserveNotFound { id }),
    }
}

/// Replaces the canister-wide minting policy.
pub fn set_global_policy_impl(state: &mut State, policy: GlobalPolicy) -> (r: Result<(), MinterError>)
    requires
        old(state).wf(),
    ensures
        keeps_completed_keys(*old(state), *final(state), None),
        final(state).wf(),
        r is Ok,
        final(state).global_policy == policy,
        final(state).reserves == old(state).reserves,
        final(state).next_reserve_id == old(state).next_reserve_id,
        final(state).ledger_id == old(state).ledger_id,
        final(state).idempotency == old(state).idempotency,
        final(state).reserve_mint_inflight == old(state).reserve_mint_inflight,
{
    state.global_policy = policy;
    Ok(())
}

/// Applies an installation argument: `Init` sets the ledger and reports
/// `true`; `Upgrade` changes nothing and reports `false` (the state then
/// comes from stable memory, or the installation is refused).
pub fn apply_init_arg(state: &mut State, arg: &Arg) -> (applied: bool)
    requires
        old(state).wf(),
    ensures
        keeps_completed_keys(*old(state), *final(state), None),
        final(state).wf(),
        match arg {
            Arg::Init(a) => applied && final(state).ledger_id == a.ledger_id
                && final(state).reserves == old(state).reserves
                && final(state).next_reserve_id == old(state).next_reserve_id
                && final(state).global_policy == old(state).global_policy
                && final(state).idempotency == old(state).idempotency
                && final(state).reserve_mint_inflight == old(state).reserve_mint_inflight,
            Arg::Upgrade => !applied && *final(state) == *old(state),
        },
{
    match arg {
        Arg::Init(a) => {
            state.ledger_id = a.ledger_id;
            true
        },
        Arg::Upgrade => false,
    }
}

/// The key's view, when one is given.
pub open spec fn key_view(key: Option<&str>) -> Option<Seq<char>> {
    match key {
        Some(k) => Some(k@),
        None => None,
    }
}

/// The key's record is a pending mint for the reserve.
pub open spec fn pending_key_for(state: State, key: Seq<char>, reserve_id: u64) -> bool {
    state.keys().contains_key(key) && state.keys()[key] == (IdempotencyRecord::Pending {
        reserve_id,
    })
}

/// Removes the key when its record is a pending mint for the reserve.
fn drop_pending_key(state: &mut State, reserve_id: u64, key: &str) -> (dropped: bool)
    requires
        old(state).wf(),
    ensures
        final(state).wf(),
        dropped == pending_key_for(*old(state), key@, reserve_id),
        dropped ==> final(state).keys() == old(state).keys().remove(key@),
        !dropped ==> final(state).idempotency == old(state).idempotency,
        final(state).reserves == old(state).reserves,
        final(state).next_reserve_id == old(state).next_reserve_id,
        final(state).ledger_id == old(state).ledger_id,
        final(state).global_policy == old(state).global_policy,
        final(state).reserve_mint_inflight == old(state).reserve_mint_inflight,
{
    match state.find_key(key) {
        Some(i) => {
            let matches = match state.idempotency[i].record {
                IdempotencyRecord::Pending { reserve_id: rid } => rid == reserve_id,
                IdempotencyRecord::Completed(_) => false,
            };
            if matches {
                proof {
                    lemma_key_map_remove(state.idempotency@, i as int);
                }
                state.idempotency.remove(i);
            }
            matches
        },
        None => false,
    }
}

/// Releases the mint lock of a reserve.
pub fn release_mint_lock(state: &mut State, reserve_id: u64)
    requires
        old(state).wf(),
    ensures
        keeps_completed_keys(*old(state), *final(state), None),
        final(state).wf(),
        final(state).inflight() == old(state).inflight().remove(reserve_id),
        final(state).reserves == old(state).reserves,
        final(state).next_reserve_id == old(state).next_reserve_id,
        final(state).ledger_id == old(state).ledger_id,
        final(state).global_policy == old(state).global_policy,
        final(state).idempotency == old(state).idempotency,
{
    set_remove(&mut state.reserve_mint_inflight, reserve_id);
}

/// Clears a stuck mint lock (always) and, when a key is given, removes it if
/// it is still pending for the same reserve.  A key pending for another
/// reserve is refused (the lock is released all the same).
pub fn release_stuck_mint_state_impl(
    state: &mut State,
    reserve_id: u64,
    idempotency_key: Option<&str>,
) -> (r: Result<(), MinterError>)
    requires
        old(state).wf(),
    ensures
        keeps_completed_keys(*old(state), *final(state), None),
        final(state).wf(),
        final(state).inflight() == old(state).inflight().remove(reserve_id),
        final(state).reserves == old(state).reserves,
        final(state).next_reserve_id == old(state).next_reserve_id,
        final(state).ledger_id == old(state).ledger_id,
        final(state).global_policy == old(state).global_policy,
        match key_view(idempotency_key) {
            None => r is Ok && final(state).idempotency == old(state).idempotency,
            Some(k) => if pending_key_for(*old(state), k, reserve_id) {
                r is Ok && final(state).keys() == old(state).keys().remove(k)
            } else if old(state).keys().contains_key(k) && old(state).keys()[k] is Pending {
                r matches Err(e) && is_invalid_config(
                    e,
                    "idempotency key is pending for a different reserve"@,
                ) && final(state).idempotency == old(state).idempotency
            } else {
                r is Ok && final(state).idempotency == old(state).idempotency
            },
        },
{
    set_remove(&mut state.reserve_mint_inflight, reserve_id);
    if let Some(k) = idempotency_key {
        match state.find_key(k) {
            Some(i) => {
                match state.idempotency[i].record {
                    IdempotencyRecord::Pending { reserve_id: rid } => {
                        if rid == reserve_id {
                            proof {
                                lemma_key_map_remove(state.idempotency@, i as int);
                            }
                            state.idempotency.remove(i);
                        } else {
                            return Err(
                                MinterError::InvalidConfig {
                                    reason: String::from_str(
                                        "idempotency key is pending for a different reserve",
                                    ),
                                },
                            );
                        }
                    },
                    IdempotencyRecord::Completed(_) => {},
                }
            },
            None => {},
        }
    }
    Ok(())
}

/// Undoes the start of a manual top-up: releases the mint lock and drops
/// the key if it is still pending for the reserve.
pub fn rollback_manual_mint_begin(state: &mut State, reserve_id: u64, idempotency_key: Option<&str>)
    requires
        old(state).wf(),
    ensures
        keeps_completed_keys(*old(state), *final(state), None),
        final(state).wf(),
        final(state).inflight() == old(state).inflight().remove(reserve_id),
        final(state).reserves == old(state).reserves,
        final(state).next_reserve_id == old(state).next_reserve_id,
        final(state).ledger_id == old(state).ledger_id,
        final(state).global_policy == old(state).global_policy,
        match key_view(idempotency_key) {
            Some(k) => if pending_key_for(*old(state), k, reserve_id) {
                final(state).keys() == old(state).keys().remove(k)
            } else {
                final(state).idempotency == old(state).idempotency
            },
            None => final(state).idempotency == old(state).idempotency,
        },
{
    set_remove(&mut state.reserve_mint_inflight, reserve_id);
    if let Some(k) = idempotency_key {
        drop_pending_key(state, reserve_id, k);
    }
}

} // verus!
