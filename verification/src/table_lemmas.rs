//! What holds of every shadow-object table: how point queries relate to
//! the objects that hold an address, and how insertion and removal compose.

use crate::shadowobjs::{
    floor_entry, intersection_of, invalid_of, is_floor_key, lemma_floor_exists,
    lemma_floor_key_unique, lemma_floor_none, region_keys, table_wf, AllocType, ShadowObject,
    Vaddr,
};
use vstd::prelude::*;

verus! {

/// The entry at key `k` holds `addr`.
pub open spec fn holds_addr(m: Map<Vaddr, ShadowObject>, addr: Vaddr, k: Vaddr) -> bool {
    m.contains_key(k) && m[k].spec_contains(addr)
}

/// The entry at key `k` ends just before `addr`.
pub open spec fn ends_before(m: Map<Vaddr, ShadowObject>, addr: Vaddr, k: Vaddr) -> bool {
    m.contains_key(k) && m[k].limit + 1 == addr
}

/// The entry at key `k` is the one a point query for `addr` is meant to
/// report: it holds `addr`, or it ends just before `addr` while no entry
/// holds `addr`.
pub open spec fn owns(m: Map<Vaddr, ShadowObject>, addr: Vaddr, k: Vaddr) -> bool {
    holds_addr(m, addr, k) || (ends_before(m, addr, k) && forall|j: Vaddr|
        !holds_addr(m, addr, j))
}

/// An entry that a point query for `addr` is meant to report is hidden from
/// it: a later entry starts at or before `addr`.
pub open spec fn shadowed(m: Map<Vaddr, ShadowObject>, addr: Vaddr) -> bool {
    exists|j: Vaddr, k: Vaddr|
        #[trigger] owns(m, addr, j) && #[trigger] m.contains_key(k) && j < k <= addr
}

/// No two entries share an address.
pub open spec fn disjoint(m: Map<Vaddr, ShadowObject>) -> bool {
    forall|j: Vaddr, k: Vaddr|
        #[trigger] m.contains_key(j) && #[trigger] m.contains_key(k) && j < k ==> m[j].limit < k
}

/// What a lookup reports is an entry of the table that reaches the address,
/// and no entry starts between its base and the address.
pub proof fn lemma_intersection_is_floor(m: Map<Vaddr, ShadowObject>, addr: Vaddr)
    requires
        table_wf(m),
    ensures
        match intersection_of(m, addr) {
            Some(o) => is_floor_key(m, addr, o.base) && m[o.base] == o && o.reaches(addr),
            None => forall|k: Vaddr| #[trigger] is_floor_key(m, addr, k) ==> !m[k].reaches(addr),
        },
        match invalid_of(m, addr) {
            Some(o) => intersection_of(m, addr) == Some(o) && o.limit + 1 == addr,
            None => forall|k: Vaddr|
                #[trigger] is_floor_key(m, addr, k) ==> m[k].limit + 1 != addr,
        },
{
    if exists|k: Vaddr| is_floor_key(m, addr, k) {
        let f = choose|k: Vaddr| is_floor_key(m, addr, k);
        lemma_floor_key_unique(m, addr, f);
    }
}

/// A point query on a table in which no entry is hidden at `addr` reports
/// the one object that holds `addr`, or else the one object that ends just
/// before it, and reports nothing only when there is no such object.
pub proof fn lemma_search_intersection_unique(m: Map<Vaddr, ShadowObject>, addr: Vaddr)
    requires
        table_wf(m),
        !shadowed(m, addr),
    ensures
        forall|k: Vaddr| owns(m, addr, k) ==> intersection_of(m, addr) == Some(m[k]),
        forall|j: Vaddr, k: Vaddr| owns(m, addr, j) && owns(m, addr, k) ==> j == k,
        match intersection_of(m, addr) {
            Some(o) => owns(m, addr, o.base) && m[o.base] == o,
            None => forall|k: Vaddr| !owns(m, addr, k),
        },
{
    lemma_intersection_is_floor(m, addr);
    assert forall|k: Vaddr| owns(m, addr, k) implies intersection_of(m, addr) == Some(m[k]) by {
        lemma_floor_exists(m, addr, k);
        let f = choose|f: Vaddr| is_floor_key(m, addr, f);
        lemma_floor_key_unique(m, addr, f);
        if f != k {
            assert(m.contains_key(f) && k < f <= addr);
        }
    }
    assert forall|j: Vaddr, k: Vaddr| owns(m, addr, j) && owns(m, addr, k) implies j == k by {
        assert(m[j] == m[k]);
    }
    match intersection_of(m, addr) {
        Some(o) => {
            if !owns(m, addr, o.base) {
                let j = choose|j: Vaddr| holds_addr(m, addr, j);
                assert(owns(m, addr, j));
                assert(intersection_of(m, addr) == Some(m[j]));
            }
        },
        None => {},
    }
}

/// Where an entry is hidden at `addr`, the point query does not report it:
/// the tables left out above are the ones on which the query misses.
pub proof fn lemma_shadowed_misses(m: Map<Vaddr, ShadowObject>, addr: Vaddr)
    requires
        table_wf(m),
        shadowed(m, addr),
    ensures
        exists|j: Vaddr| owns(m, addr, j) && intersection_of(m, addr) != Some(m[j]),
{
    let (j, k) = choose|j: Vaddr, k: Vaddr|
        #[trigger] owns(m, addr, j) && #[trigger] m.contains_key(k) && j < k <= addr;
    lemma_intersection_is_floor(m, addr);
    lemma_floor_exists(m, addr, k);
    let f = choose|f: Vaddr| is_floor_key(m, addr, f);
    lemma_floor_key_unique(m, addr, f);
    assert(k <= f);
    assert(m[f].base != m[j].base);
    assert(owns(m, addr, j) && intersection_of(m, addr) != Some(m[j]));
}

/// In a table whose entries share no address, no entry is hidden, so every
/// point query reports the unique object that holds the address or, failing
/// that, the unique object that ends just before it.
pub proof fn lemma_disjoint_never_shadowed(m: Map<Vaddr, ShadowObject>, addr: Vaddr)
    requires
        table_wf(m),
        disjoint(m),
    ensures
        !shadowed(m, addr),
{
    if shadowed(m, addr) {
        let (j, k) = choose|j: Vaddr, k: Vaddr|
            #[trigger] owns(m, addr, j) && #[trigger] m.contains_key(k) && j < k <= addr;
        assert(m[j].limit < k);
        assert(k == addr);
        assert(holds_addr(m, addr, k));
    }
}

/// Inserting at a base that is already recorded has the effect of removing
/// the old entry first: the new object replaces it and nothing else changes.
pub proof fn lemma_reinsert_replaces(
    m: Map<Vaddr, ShadowObject>,
    alloc_type: AllocType,
    base: Vaddr,
    size: usize,
)
    ensures
        m.insert(base, ShadowObject::spec_new(alloc_type, base, size)) == m.remove(base).insert(
            base,
            ShadowObject::spec_new(alloc_type, base, size),
        ),
        forall|earlier: ShadowObject|
            m.insert(base, earlier).insert(base, ShadowObject::spec_new(alloc_type, base, size))
                == m.insert(base, ShadowObject::spec_new(alloc_type, base, size)),
{
    let o = ShadowObject::spec_new(alloc_type, base, size);
    assert(m.insert(base, o) =~= m.remove(base).insert(base, o));
    assert forall|earlier: ShadowObject|
        m.insert(base, earlier).insert(base, o) == m.insert(base, o) by {
        assert(m.insert(base, earlier).insert(base, o) =~= m.insert(base, o));
    }
}

/// Removing at a base twice leaves what removing once leaves.
pub proof fn lemma_remove_idempotent(m: Map<Vaddr, ShadowObject>, base: Vaddr)
    ensures
        m.remove(base).remove(base) == m.remove(base),
{
    assert(m.remove(base).remove(base) =~= m.remove(base));
}

/// Removing a region removes exactly the entries whose base lies in it, and
/// leaves every other entry as it was.
pub proof fn lemma_region_removed(m: Map<Vaddr, ShadowObject>, base: Vaddr, limit: Vaddr)
    ensures
        forall|k: Vaddr|
            m.remove_keys(region_keys(base, limit)).contains_key(k) <==> m.contains_key(k) && !(
            base <= k <= limit),
        forall|k: Vaddr|
            m.remove_keys(region_keys(base, limit)).contains_key(k) ==> m.remove_keys(
                region_keys(base, limit),
            )[k] == m[k],
{
}

/// An empty region is recorded with its limit at its base. A query for the
/// base finds it, and a query for the next address finds it as the object
/// that ends just before, unless another entry starts at that address.
pub proof fn lemma_zero_sized(m: Map<Vaddr, ShadowObject>, alloc_type: AllocType, base: Vaddr)
    requires
        table_wf(m),
    ensures
        ({
            let o = ShadowObject::spec_new(alloc_type, base, 0);
            let after = m.insert(base, o);
            &&& o.limit == base
            &&& table_wf(after)
            &&& intersection_of(after, base) == Some(o)
            &&& invalid_of(after, base) is None
            &&& base < usize::MAX && !m.contains_key((base + 1) as usize) ==> {
                &&& intersection_of(after, (base + 1) as usize) == Some(o)
                &&& invalid_of(after, (base + 1) as usize) == Some(o)
            }
        }),
{
    let o = ShadowObject::spec_new(alloc_type, base, 0);
    let after = m.insert(base, o);
    assert(is_floor_key(after, base, base));
    lemma_floor_key_unique(after, base, base);
    if base < usize::MAX && !m.contains_key((base + 1) as usize) {
        let next = (base + 1) as usize;
        assert(is_floor_key(after, next, base));
        lemma_floor_key_unique(after, next, base);
    }
}

/// An entry that starts at `addr` is what a query for `addr` reports, even
/// when another entry ends just before `addr`.
pub proof fn lemma_adjacent_reports_later(m: Map<Vaddr, ShadowObject>, addr: Vaddr)
    requires
        table_wf(m),
        m.contains_key(addr),
    ensures
        intersection_of(m, addr) == Some(m[addr]),
        invalid_of(m, addr) is None,
{
    assert(is_floor_key(m, addr, addr));
    lemma_floor_key_unique(m, addr, addr);
}

/// A table without a key at or below `addr` reports nothing for `addr`.
pub proof fn lemma_nothing_below(m: Map<Vaddr, ShadowObject>, addr: Vaddr)
    requires
        forall|k: Vaddr| m.contains_key(k) ==> k > addr,
    ensures
        floor_entry(m, addr) is None,
        intersection_of(m, addr) is None,
        invalid_of(m, addr) is None,
{
    lemma_floor_none(m, addr);
}

} // verus!
