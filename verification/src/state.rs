//! The minter's state: registered reserves (by id), the
//! global policy, the idempotency records of manual top-ups and the set of
//! reserves with a mint in flight.
use vstd::prelude::*;

use std::collections::{BTreeMap, BTreeSet};

use candid::Principal;

use crate::model::{GlobalPolicy, IdempotencyRecord, ReserveRecord, same_account};
use crate::outside::anonymous_principal;
use crate::reserve::config_valid;
use vstd::std_specs::btree::{increasing_seq, spec_btree_map_iter};
use vstd::std_specs::cmp::OrdSpec;
use vstd::std_specs::iter::IteratorSpec;

verus! {

/// An idempotency key of a manual top-up and its record.
#[derive(Debug)]
pub struct IdempotencyItem {
    /// The caller-provided key.
    pub key: String,
    /// Pending or completed mint for the key.
    pub record: IdempotencyRecord,
}

/// The complete runtime state of the minter.
#[derive(Debug)]
pub struct State {
    /// Principal of the ledger this minter mints on.
    pub ledger_id: Principal,
    /// Counter from which new reserve ids are taken.
    pub next_reserve_id: u64,
    /// Registered reserves, by id.
    pub reserves: BTreeMap<u64, ReserveRecord>,
    /// Canister-wide minting policy.
    pub global_policy: GlobalPolicy,
    /// Idempotency records of manual top-ups, one per key.  Verus proves
    /// nothing of a map keyed by `String`, so the records are kept in a
    /// vector whose keys are distinct (see [`State::wf`]).
    pub idempotency: Vec<IdempotencyItem>,
    /// Reserves with a ledger mint in flight.
    pub reserve_mint_inflight: BTreeSet<u64>,
}

// ---------------------------------------------------------------------------
// Reserves
// ---------------------------------------------------------------------------

/// The ids of a sequence of entries.
pub open spec fn entry_ids(es: Seq<(&u64, &ReserveRecord)>) -> Seq<u64> {
    es.map_values(|e: (&u64, &ReserveRecord)| *e.0)
}

/// Strictly increasing ids.
pub open spec fn increasing(ids: Seq<u64>) -> bool {
    forall|i: int, j: int| 0 <= i < j < ids.len() ==> ids[i] < ids[j]
}

/// The ids are the map's keys, each once, in increasing order.
pub open spec fn sorted_keys(ids: Seq<u64>, m: Map<u64, ReserveRecord>) -> bool {
    &&& increasing(ids)
    &&& forall|id: u64| #[trigger] m.contains_key(id) <==> ids.contains(id)
}

/// A sequence of `u64` that the ordering of `u64` says is increasing is
/// strictly increasing.
pub proof fn lemma_increasing_ids(ids: Seq<u64>)
    requires
        increasing_seq(ids),
    ensures
        increasing(ids),
{
    assert(vstd::laws_cmp::obeys_cmp::<u64>());
    assert forall|i: int, j: int| 0 <= i < j < ids.len() implies ids[i] < ids[j] by {
        assert(ids[i].cmp_spec(&ids[j]) is Less);
    }
}

/// What iterating over the map yields: each entry of the map, with ids in
/// increasing order.
pub open spec fn yields_entries(v: Seq<(&u64, &ReserveRecord)>, m: Map<u64, ReserveRecord>) -> bool {
    &&& increasing_seq(entry_ids(v))
    &&& forall|i: int|
        0 <= i < v.len() ==> m.contains_key(*(#[trigger] v[i]).0) && m[*v[i].0] == *v[i].1
    &&& forall|k: u64| #[trigger] m.contains_key(k) ==> v.contains((&k, &m[k]))
}

/// Iterating over the map yields every entry once, with ids in increasing
/// order.
pub proof fn lemma_entries(v: Seq<(&u64, &ReserveRecord)>, m: Map<u64, ReserveRecord>)
    requires
        yields_entries(v, m),
    ensures
        sorted_keys(entry_ids(v), m),
        forall|i: int|
            0 <= i < v.len() ==> m.contains_key(#[trigger] entry_ids(v)[i]) && m[entry_ids(v)[i]]
                == *v[i].1,
{
    let ks = entry_ids(v);
    lemma_increasing_ids(ks);
    assert forall|i: int| 0 <= i < v.len() implies m.contains_key(#[trigger] ks[i]) && m[ks[i]]
        == *v[i].1 by {
        assert(m.contains_key(*v[i].0));
    }
    assert forall|id: u64| #[trigger] m.contains_key(id) <==> ks.contains(id) by {
        if m.contains_key(id) {
            assert(v.contains((&id, &m[id])));
            let i = choose|i: int| 0 <= i < v.len() && v[i] == (&id, &m[id]);
            assert(ks[i] == id);
        }
        if ks.contains(id) {
            let i = choose|i: int| 0 <= i < ks.len() && ks[i] == id;
            assert(m.contains_key(*v[i].0));
        }
    }
}

/// No two registered reserves denote the same ledger account.
pub open spec fn accounts_distinct(rs: Map<u64, ReserveRecord>) -> bool {
    forall|i: u64, j: u64|
        rs.contains_key(i) && rs.contains_key(j) && i != j ==> !same_account(
            #[trigger] rs[i].config.account,
            #[trigger] rs[j].config.account,
        )
}

/// Every registered reserve's configuration passes validation.
pub open spec fn configs_valid(rs: Map<u64, ReserveRecord>) -> bool {
    forall|i: u64| rs.contains_key(i) ==> config_valid(#[trigger] rs[i].config)
}

// ---------------------------------------------------------------------------
// Idempotency records
// ---------------------------------------------------------------------------

/// Some item has the key.
pub open spec fn has_key(items: Seq<IdempotencyItem>, k: Seq<char>) -> bool {
    exists|i: int| 0 <= i < items.len() && #[trigger] items[i].key@ == k
}

/// Keys occur at most once.
pub open spec fn keys_distinct(items: Seq<IdempotencyItem>) -> bool {
    forall|i: int, j: int|
        0 <= i < items.len() && 0 <= j < items.len() && i != j ==> #[trigger] items[i].key@
            != #[trigger] items[j].key@
}

/// The idempotency records as a map from key to record.
pub open spec fn key_map(items: Seq<IdempotencyItem>) -> Map<Seq<char>, IdempotencyRecord> {
    Map::new(
        |k: Seq<char>| has_key(items, k),
        |k: Seq<char>| items[choose|i: int| 0 <= i < items.len() && #[trigger] items[i].key@ == k].record,
    )
}

/// With distinct keys, the map gives each item's record for its key.
pub proof fn lemma_key_map_at(items: Seq<IdempotencyItem>, i: int)
    requires
        keys_distinct(items),
        0 <= i < items.len(),
    ensures
        key_map(items).contains_key(items[i].key@),
        key_map(items)[items[i].key@] == items[i].record,
{
    let k = items[i].key@;
    assert(has_key(items, k));
    let j = choose|j: int| 0 <= j < items.len() && #[trigger] items[j].key@ == k;
    assert(j == i);
}

/// Appending an item with a new key adds it to the map.
pub proof fn lemma_key_map_push(items: Seq<IdempotencyItem>, item: IdempotencyItem)
    requires
        keys_distinct(items),
        !has_key(items, item.key@),
    ensures
        keys_distinct(items.push(item)),
        key_map(items.push(item)) == key_map(items).insert(item.key@, item.record),
{
    let n = items.push(item);
    assert forall|i: int, j: int|
        0 <= i < n.len() && 0 <= j < n.len() && i != j implies #[trigger] n[i].key@
            != #[trigger] n[j].key@ by {
        if i < items.len() && j < items.len() {
            assert(n[i] == items[i] && n[j] == items[j]);
        } else if i < items.len() {
            assert(n[i] == items[i]);
        } else {
            assert(n[j] == items[j]);
        }
    }
    assert forall|k: Seq<char>| #[trigger] key_map(n).contains_key(k) <==> key_map(
        items,
    ).insert(item.key@, item.record).contains_key(k) by {
        if has_key(items, k) {
            let i = choose|i: int| 0 <= i < items.len() && #[trigger] items[i].key@ == k;
            assert(n[i] == items[i]);
        }
        if k == item.key@ {
            assert(n[n.len() - 1] == item);
        }
    }
    assert forall|k: Seq<char>| #[trigger] key_map(n).contains_key(k) implies key_map(n)[k]
        == key_map(items).insert(item.key@, item.record)[k] by {
        if k == item.key@ {
            assert(n[n.len() - 1] == item);
            lemma_key_map_at(n, n.len() - 1);
        } else {
            let i = choose|i: int| 0 <= i < items.len() && #[trigger] items[i].key@ == k;
            assert(n[i] == items[i]);
            lemma_key_map_at(n, i);
            lemma_key_map_at(items, i);
        }
    }
    assert(key_map(n) =~= key_map(items).insert(item.key@, item.record));
}

/// Removing the item at `i` removes its key from the map.
pub proof fn lemma_key_map_remove(items: Seq<IdempotencyItem>, i: int)
    requires
        keys_distinct(items),
        0 <= i < items.len(),
    ensures
        keys_distinct(items.remove(i)),
        key_map(items.remove(i)) == key_map(items).remove(items[i].key@),
{
    let n = items.remove(i);
    let k0 = items[i].key@;
    assert forall|a: int, b: int|
        0 <= a < n.len() && 0 <= b < n.len() && a != b implies #[trigger] n[a].key@
            != #[trigger] n[b].key@ by {
        let a2 = if a < i {
            a
        } else {
            a + 1
        };
        let b2 = if b < i {
            b
        } else {
            b + 1
        };
        assert(n[a] == items[a2] && n[b] == items[b2]);
    }
    assert forall|k: Seq<char>| #[trigger] key_map(n).contains_key(k) <==> key_map(
        items,
    ).remove(k0).contains_key(k) by {
        if has_key(n, k) {
            let a = choose|a: int| 0 <= a < n.len() && #[trigger] n[a].key@ == k;
            let a2 = if a < i {
                a
            } else {
                a + 1
            };
            assert(n[a] == items[a2]);
            assert(a2 != i);
        }
        if has_key(items, k) && k != k0 {
            let a = choose|a: int| 0 <= a < items.len() && #[trigger] items[a].key@ == k;
            assert(a != i);
            let a1 = if a < i {
                a
            } else {
                a - 1
            };
            assert(n[a1] == items[a]);
        }
    }
    assert forall|k: Seq<char>| #[trigger] key_map(n).contains_key(k) implies key_map(n)[k]
        == key_map(items).remove(k0)[k] by {
        let a = choose|a: int| 0 <= a < n.len() && #[trigger] n[a].key@ == k;
        let a2 = if a < i {
            a
        } else {
            a + 1
        };
        assert(n[a] == items[a2]);
        lemma_key_map_at(n, a);
        lemma_key_map_at(items, a2);
    }
    assert(key_map(n) =~= key_map(items).remove(k0));
}

/// Replacing the record of the item at `i` updates its key in the map.
pub proof fn lemma_key_map_set(items: Seq<IdempotencyItem>, i: int, item: IdempotencyItem)
    requires
        keys_distinct(items),
        0 <= i < items.len(),
        item.key@ == items[i].key@,
    ensures
        keys_distinct(items.update(i, item)),
        key_map(items.update(i, item)) == key_map(items).insert(item.key@, item.record),
{
    let n = items.update(i, item);
    assert forall|a: int, b: int|
        0 <= a < n.len() && 0 <= b < n.len() && a != b implies #[trigger] n[a].key@
            != #[trigger] n[b].key@ by {
        assert(n[a].key@ == items[a].key@ && n[b].key@ == items[b].key@);
    }
    assert forall|k: Seq<char>| #[trigger] key_map(n).contains_key(k) <==> key_map(
        items,
    ).insert(item.key@, item.record).contains_key(k) by {
        if has_key(n, k) {
            let a = choose|a: int| 0 <= a < n.len() && #[trigger] n[a].key@ == k;
            assert(items[a].key@ == k);
        }
        if has_key(items, k) {
            let a = choose|a: int| 0 <= a < items.len() && #[trigger] items[a].key@ == k;
            assert(n[a].key@ == k);
        }
        if k == item.key@ {
            assert(n[i].key@ == k);
        }
    }
    assert forall|k: Seq<char>| #[trigger] key_map(n).contains_key(k) implies key_map(n)[k]
        == key_map(items).insert(item.key@, item.record)[k] by {
        let a = choose|a: int| 0 <= a < n.len() && #[trigger] n[a].key@ == k;
        lemma_key_map_at(n, a);
        if a != i {
            assert(n[a] == items[a]);
            lemma_key_map_at(items, a);
        }
    }
    assert(key_map(n) =~= key_map(items).insert(item.key@, item.record));
}

/// Every completed idempotency record of `before` is still in `after`,
/// unchanged, except possibly the one under the key `except`.
pub open spec fn keeps_completed_keys(before: State, after: State, except: Option<Seq<char>>) -> bool {
    forall|k: Seq<char>|
        #[trigger] before.keys().contains_key(k) && before.keys()[k] is Completed && except != Some(k)
            ==> after.keys().contains_key(k) && after.keys()[k] == before.keys()[k]
}

// ---------------------------------------------------------------------------
// The state
// ---------------------------------------------------------------------------

impl State {
    /// Well-formedness: reserve ids lie below the id counter, each key
    /// occurs once.
    pub open spec fn wf(&self) -> bool {
        &&& forall|id: u64| #[trigger] self.reserves@.contains_key(id) ==> id < self.next_reserve_id
        &&& keys_distinct(self.idempotency@)
    }

    /// The reserves with a mint in flight.
    pub open spec fn inflight(&self) -> Set<u64> {
        self.reserve_mint_inflight@
    }

    /// The idempotency records, by key.
    pub open spec fn keys(&self) -> Map<Seq<char>, IdempotencyRecord> {
        key_map(self.idempotency@)
    }

    /// A reserve with the id is registered.
    pub open spec fn has_reserve(&self, id: u64) -> bool {
        self.reserves@.contains_key(id)
    }

    /// The registered reserve with the id.
    pub open spec fn reserve(&self, id: u64) -> ReserveRecord {
        self.reserves@[id]
    }

    /// Checks well-formedness (used on a state restored from storage).
    #[verifier::loop_isolation(false)]
    pub fn is_well_formed(&self) -> (r: bool)
        ensures
            r == self.wf(),
    {
        let ghost v = spec_btree_map_iter(&self.reserves).remaining();
        for e in it: self.reserves.iter()
            invariant
                it.seq() == v,
                forall|i: int| 0 <= i < it.index() ==> *(#[trigger] v[i]).0 < self.next_reserve_id,
        {
            if *e.0 >= self.next_reserve_id {
                assert(self.reserves@.contains_key(*e.0));
                return false;
            }
        }
        proof {
            assert(yields_entries(v, self.reserves@));
            lemma_entries(v, self.reserves@);
            assert forall|id: u64| #[trigger] self.reserves@.contains_key(id) implies id
                < self.next_reserve_id by {
                let i = choose|i: int| 0 <= i < v.len() && entry_ids(v)[i] == id;
                assert(*v[i].0 < self.next_reserve_id);
            }
        }
        let items = &self.idempotency;
        let mut a: usize = 0;
        while a < items.len()
            invariant
                a <= items@.len(),
                forall|i: int, j: int|
                    0 <= i < a && 0 <= j < items@.len() && i != j ==> items@[i].key@
                        != items@[j].key@,
            decreases items.len() - a,
        {
            let mut b: usize = 0;
            while b < items.len()
                invariant
                    a < items@.len(),
                    b <= items@.len(),
                    forall|j: int| 0 <= j < b && j != a ==> items@[a as int].key@ != items@[j].key@,
                decreases items.len() - b,
            {
                if b != a && items[a].key == items[b].key {
                    assert(!keys_distinct(items@)) by {
                        assert(items@[a as int].key@ == items@[b as int].key@);
                    }
                    return false;
                }
                b = b + 1;
            }
            a = a + 1;
        }
        true
    }

    /// Position of the idempotency item with the key, when present.
    pub fn find_key(&self, key: &str) -> (r: Option<usize>)
        requires
            self.wf(),
        ensures
            match r {
                Some(i) => i < self.idempotency@.len() && self.idempotency@[i as int].key@ == key@
                    && self.keys().contains_key(key@) && self.keys()[key@]
                    == self.idempotency@[i as int].record,
                None => !self.keys().contains_key(key@),
            },
    {
        let wanted = String::from_str(key);
        let mut k: usize = 0;
        while k < self.idempotency.len()
            invariant
                self.wf(),
                k <= self.idempotency@.len(),
                wanted@ == key@,
                forall|i: int| 0 <= i < k ==> #[trigger] self.idempotency@[i].key@ != key@,
            decreases self.idempotency.len() - k,
        {
            if self.idempotency[k].key == wanted {
                proof {
                    lemma_key_map_at(self.idempotency@, k as int);
                }
                return Some(k);
            }
            k = k + 1;
        }
        None
    }
}

/// Whether the id is in the set.
pub fn set_contains(set: &BTreeSet<u64>, id: u64) -> (r: bool)
    ensures
        r == set@.contains(id),
{
    set.contains(&id)
}

/// Adds the id unless present; returns whether it was added.
pub fn set_insert(set: &mut BTreeSet<u64>, id: u64) -> (r: bool)
    ensures
        final(set)@ == old(set)@.insert(id),
        r == !old(set)@.contains(id),
{
    set.insert(id)
}

/// Removes the id when present.
pub fn set_remove(set: &mut BTreeSet<u64>, id: u64)
    ensures
        final(set)@ == old(set)@.remove(id),
{
    set.remove(&id);
}

impl Default for State {
    /// An empty state: no reserves, the default policy, the anonymous
    /// principal as ledger.
    fn default() -> (r: Self)
        ensures
            r.wf(),
            configs_valid(r.reserves@),
            accounts_distinct(r.reserves@),
            r.ledger_id == crate::outside::principal_from_bytes(seq![4u8]),
            r.next_reserve_id == 0,
            r.reserves@ == Map::<u64, ReserveRecord>::empty(),
            r.global_policy.minting_enabled,
            r.global_policy.max_mint_per_operation is None,
            r.idempotency@.len() == 0,
            r.inflight() == Set::<u64>::empty(),
    {
        State {
            ledger_id: anonymous_principal(),
            next_reserve_id: 0,
            reserves: BTreeMap::new(),
            global_policy: GlobalPolicy::default(),
            idempotency: Vec::new(),
            reserve_mint_inflight: BTreeSet::new(),
        }
    }
}

} // verus!
