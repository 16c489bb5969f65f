//! Read-only views of the state.
use vstd::prelude::*;

use candid::Principal;

use crate::model::{GlobalPolicy, MinterError, ReserveRecord};
use crate::params::ReserveInfo;
use crate::state::{State, entry_ids, lemma_entries, yields_entries, sorted_keys};
use vstd::std_specs::btree::spec_btree_map_iter;
use vstd::std_specs::iter::IteratorSpec;

verus! {

/// The info describes the reserve registered under its id.
pub open spec fn describes(info: ReserveInfo, rs: Map<u64, ReserveRecord>) -> bool {
    &&& rs.contains_key(info.id)
    &&& info.config == rs[info.id].config
    &&& info.lifetime_minted == rs[info.id].lifetime_minted
}

/// The ids of a listing.
pub open spec fn info_ids(infos: Seq<ReserveInfo>) -> Seq<u64> {
    infos.map_values(|info: ReserveInfo| info.id)
}

/// All registered reserves with their configurations and lifetime totals,
/// in increasing id order.
#[verifier::loop_isolation(false)]
pub fn list_reserves(state: &State) -> (r: Vec<ReserveInfo>)
    ensures
        sorted_keys(info_ids(r@), state.reserves@),
        forall|i: int| 0 <= i < r@.len() ==> describes(#[trigger] r@[i], state.reserves@),
{
    let mut out: Vec<ReserveInfo> = Vec::new();
    let ghost v = spec_btree_map_iter(&state.reserves).remaining();
    for e in it: state.reserves.iter()
        invariant
            it.seq() == v,
            info_ids(out@) == entry_ids(v).take(it.index()),
            forall|i: int| 0 <= i < out@.len() ==> (#[trigger] out@[i]).config == v[i].1.config
                && out@[i].lifetime_minted == v[i].1.lifetime_minted,
    {
        let (id, record) = e;
        out.push(
            ReserveInfo {
                id: *id,
                config: record.config.clone(),
                lifetime_minted: record.lifetime_minted,
            },
        );
        proof {
            assert(info_ids(out@) =~= entry_ids(v).take(it.index() + 1));
        }
    }
    proof {
        assert(yields_entries(v, state.reserves@));
        lemma_entries(v, state.reserves@);
        assert(entry_ids(v).take(v.len() as int) =~= entry_ids(v));
        assert forall|i: int| 0 <= i < out@.len() implies describes(#[trigger] out@[i], state.reserves@) by {
            assert(info_ids(out@)[i] == entry_ids(v)[i]);
        }
    }
    out
}

/// The configuration and lifetime total of one reserve.
pub fn get_reserve_impl(state: &State, id: u64) -> (r: Result<ReserveInfo, MinterError>)
    ensures
        !state.has_reserve(id) ==> r == Err::<ReserveInfo, MinterError>(
            MinterError::ReserveNotFound { id },
        ),
        state.has_reserve(id) ==> (r matches Ok(info) && info.id == id && info.config == state.reserve(
            id,
        ).config && info.lifetime_minted == state.reserve(id).lifetime_minted),
{
    match state.reserves.get(&id) {
        Some(record) => Ok(
            ReserveInfo {
                id,
                config: record.config.clone(),
                lifetime_minted: record.lifetime_minted,
            },
        ),
        None => Err(MinterError::ReserveNotFound { id }),
    }
}

/// The global minting policy.
pub fn get_global_policy(state: &State) -> (r: GlobalPolicy)
    ensures
        r == state.global_policy,
{
    state.global_policy
}

/// The principal of the ledger this minter mints on.
pub fn get_ledger_id(state: &State) -> (r: Principal)
    ensures
        r == state.ledger_id,
{
    state.ledger_id
}

/// The ids of all registered reserves, in increasing order.
#[verifier::loop_isolation(false)]
pub fn reserve_ids(state: &State) -> (r: Vec<u64>)
    ensures
        sorted_keys(r@, state.reserves@),
{
    let mut out: Vec<u64> = Vec::new();
    let ghost v = spec_btree_map_iter(&state.reserves).remaining();
    for e in it: state.reserves.iter()
        invariant
            it.seq() == v,
            out@ == entry_ids(v).take(it.index()),
    {
        out.push(*e.0);
        proof {
            assert(out@ =~= entry_ids(v).take(it.index() + 1));
        }
    }
    proof {
        assert(yields_entries(v, state.reserves@));
        lemma_entries(v, state.reserves@);
        assert(entry_ids(v).take(v.len() as int) =~= entry_ids(v));
    }
    out
}

} // verus!
