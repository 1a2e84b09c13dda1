//! Shadow objects and the address-ordered table that tracks them.
//!
//! A [`ShadowObject`] mirrors one allocation: its first byte, its last byte
//! and where it came from. A [`ShadowObjectTable`] keeps shadow objects keyed
//! by their base address and answers point queries: which object, if any,
//! holds an address or ends just before it.
//!
//! The table is a `BTreeMap`; its mathematical model is the `Map` from base
//! address to object. Every lookup goes through a single candidate, the entry
//! with the greatest base that is not above the queried address.

use std::collections::btree_map::Range;
use std::collections::BTreeMap;
use std::ops::RangeInclusive;
use vstd::prelude::*;

verus! {

/// A virtual address. Zero stands for "null / unresolved".
pub type Vaddr = usize;

/// Where an allocation came from, or why a lookup found none.
#[derive(Debug, Clone, Copy, PartialEq, Eq, Structural)]
pub enum AllocType {
    Unallocated,
    Unknown,
    Heap,
    Stack,
    Global,
}

impl AllocType {
    /// The kinds that describe a live allocation.
    pub open spec fn is_live(self) -> bool {
        self is Heap || self is Stack || self is Global
    }

    /// The one-byte encoding used across the C boundary.
    pub open spec fn spec_to_wire(self) -> u8 {
        match self {
            AllocType::Unallocated => 0u8,
            AllocType::Unknown => 1u8,
            AllocType::Heap => 2u8,
            AllocType::Stack => 3u8,
            AllocType::Global => 4u8,
        }
    }

    /// The kind that a wire byte stands for, if it stands for one.
    pub open spec fn spec_from_wire(byte: u8) -> Option<AllocType> {
        if byte == 0 {
            Some(AllocType::Unallocated)
        } else if byte == 1 {
            Some(AllocType::Unknown)
        } else if byte == 2 {
            Some(AllocType::Heap)
        } else if byte == 3 {
            Some(AllocType::Stack)
        } else if byte == 4 {
            Some(AllocType::Global)
        } else {
            None
        }
    }

    /// Encodes the kind as its wire byte.
    pub fn to_wire(self) -> (byte: u8)
        ensures
            byte == self.spec_to_wire(),
    {
        match self {
            AllocType::Unallocated => 0,
            AllocType::Unknown => 1,
            AllocType::Heap => 2,
            AllocType::Stack => 3,
            AllocType::Global => 4,
        }
    }

    /// Decodes a wire byte; bytes above 4 stand for no kind.
    pub fn from_wire(byte: u8) -> (kind: Option<AllocType>)
        ensures
            kind == AllocType::spec_from_wire(byte),
    {
        if byte == 0 {
            Some(AllocType::Unallocated)
        } else if byte == 1 {
            Some(AllocType::Unknown)
        } else if byte == 2 {
            Some(AllocType::Heap)
        } else if byte == 3 {
            Some(AllocType::Stack)
        } else if byte == 4 {
            Some(AllocType::Global)
        } else {
            None
        }
    }
}

/// Decoding the wire byte of a kind gives the kind back, and no two kinds
/// share a byte.
pub proof fn lemma_wire_round_trip(kind: AllocType, other: AllocType)
    ensures
        AllocType::spec_from_wire(kind.spec_to_wire()) == Some(kind),
        kind.spec_to_wire() == other.spec_to_wire() ==> kind == other,
{
}

/// The metadata that mirrors one allocation.
#[derive(Debug, Clone, Copy, PartialEq, Eq, Structural)]
pub struct ShadowObject {
    /// Allocation kind.
    pub alloc_type: AllocType,
    /// First valid byte.
    pub base: Vaddr,
    /// Last valid byte, inclusive.
    pub limit: Vaddr,
}

impl ShadowObject {
    /// The base is not above the limit, and the size fits a machine word.
    pub open spec fn wf(&self) -> bool {
        self.base <= self.limit && self.limit - self.base < usize::MAX
    }

    /// `addr` lies in `[base, limit]`.
    pub open spec fn spec_contains(&self, addr: Vaddr) -> bool {
        self.base <= addr <= self.limit
    }

    /// Number of bytes in `[base, limit]`.
    pub open spec fn spec_size(&self) -> int {
        self.limit - self.base + 1
    }

    /// The address one past the limit.
    pub open spec fn spec_past_limit(&self) -> int {
        self.limit + 1
    }

    /// `addr` lies in the object or is its one-past-the-end address.
    pub open spec fn reaches(&self, addr: Vaddr) -> bool {
        self.base <= addr <= self.limit + 1
    }

    /// The last byte of a region of `size` bytes at `base`; an empty region
    /// is given the limit `base`.
    pub open spec fn spec_limit(base: Vaddr, size: usize) -> int {
        if size == 0 {
            base as int
        } else {
            base + size - 1
        }
    }

    /// A region of `size` bytes at `base` ends inside the address space.
    pub open spec fn fits(base: Vaddr, size: usize) -> bool {
        Self::spec_limit(base, size) <= usize::MAX
    }

    /// The object recorded for a region of `size` bytes at `base`.
    pub open spec fn spec_new(alloc_type: AllocType, base: Vaddr, size: usize) -> ShadowObject {
        ShadowObject { alloc_type, base, limit: Self::spec_limit(base, size) as usize }
    }

    /// Tests whether a region of `size` bytes at `base` ends inside the
    /// address space, so that it can be recorded.
    pub fn region_fits(base: Vaddr, size: usize) -> (r: bool)
        ensures
            r == Self::fits(base, size),
    {
        size == 0 || size - 1 <= usize::MAX - base
    }

    /// The range `base..=limit`.
    pub fn bounds(&self) -> (r: RangeInclusive<Vaddr>)
        ensures
            r@.start == self.base,
            r@.end == self.limit,
            !r@.exhausted,
    {
        RangeInclusive::new(self.base, self.limit)
    }

    /// Tests whether `addr` lies within the bounds of this object.
    pub fn contains(&self, addr: Vaddr) -> (r: bool)
        ensures
            r == self.spec_contains(addr),
    {
        self.base <= addr && addr <= self.limit
    }

    /// The size of the object, from its base and limit.
    pub fn size(&self) -> (r: usize)
        requires
            self.wf(),
        ensures
            r == self.spec_size(),
    {
        self.limit - self.base + 1
    }

    /// The limit of a region of `size` bytes at `base`.
    pub fn limit(base: Vaddr, size: usize) -> (r: Vaddr)
        requires
            Self::fits(base, size),
        ensures
            r == Self::spec_limit(base, size),
    {
        if size == 0 {
            base
        } else {
            base + (size - 1)
        }
    }

    /// The sentinel address of this object, one past its limit.
    pub fn past_limit(&self) -> (r: Vaddr)
        requires
            self.limit < usize::MAX,
        ensures
            r == self.spec_past_limit(),
    {
        self.limit + 1
    }
}

/// The object recorded for a region that fits is well formed, starts at
/// `base`, and has the size asked for (one byte for an empty region).
pub proof fn lemma_new_object(alloc_type: AllocType, base: Vaddr, size: usize)
    requires
        ShadowObject::fits(base, size),
    ensures
        ShadowObject::spec_new(alloc_type, base, size).wf(),
        ShadowObject::spec_new(alloc_type, base, size).base == base,
        ShadowObject::spec_new(alloc_type, base, size).alloc_type == alloc_type,
        ShadowObject::spec_new(alloc_type, base, size).spec_size() == if size == 0 {
            1
        } else {
            size as int
        },
{
}

/// `k` is a key of `m`, is not above `addr`, and no key of `m` lies between.
pub open spec fn is_floor_key(m: Map<Vaddr, ShadowObject>, addr: Vaddr, k: Vaddr) -> bool {
    &&& m.contains_key(k)
    &&& k <= addr
    &&& forall|j: Vaddr| #[trigger] m.contains_key(j) && j <= addr ==> j <= k
}

/// The entry of `m` with the greatest key that is not above `addr`.
pub open spec fn floor_entry(m: Map<Vaddr, ShadowObject>, addr: Vaddr) -> Option<ShadowObject> {
    if exists|k: Vaddr| is_floor_key(m, addr, k) {
        Some(m[choose|k: Vaddr| is_floor_key(m, addr, k)])
    } else {
        None
    }
}

/// The floor entry of `addr`, if `addr` lies in it or is one past its limit.
pub open spec fn intersection_of(m: Map<Vaddr, ShadowObject>, addr: Vaddr) -> Option<
    ShadowObject,
> {
    match floor_entry(m, addr) {
        Some(o) => if addr <= o.limit + 1 {
            Some(o)
        } else {
            None
        },
        None => None,
    }
}

/// The floor entry of `addr`, if `addr` is exactly one past its limit.
pub open spec fn invalid_of(m: Map<Vaddr, ShadowObject>, addr: Vaddr) -> Option<ShadowObject> {
    match floor_entry(m, addr) {
        Some(o) => if addr == o.limit + 1 {
            Some(o)
        } else {
            None
        },
        None => None,
    }
}

/// Every entry is keyed by its own base and is a well-formed object.
pub open spec fn table_wf(m: Map<Vaddr, ShadowObject>) -> bool {
    &&& m.dom().finite()
    &&& forall|k: Vaddr| #[trigger] m.contains_key(k) ==> m[k].base == k && m[k].wf()
}

/// The keys that `invalidate_region(base, limit)` removes.
pub open spec fn region_keys(base: Vaddr, limit: Vaddr) -> Set<Vaddr> {
    Set::new(|k: Vaddr| base <= k <= limit)
}

/// A key with the floor property is the only one, and names the floor entry.
pub proof fn lemma_floor_key_unique(m: Map<Vaddr, ShadowObject>, addr: Vaddr, k: Vaddr)
    requires
        is_floor_key(m, addr, k),
    ensures
        floor_entry(m, addr) == Some(m[k]),
        forall|j: Vaddr| is_floor_key(m, addr, j) ==> j == k,
{
    let c = choose|j: Vaddr| is_floor_key(m, addr, j);
    assert(is_floor_key(m, addr, c));
    assert(c <= k && k <= c);
}

/// Without a key at or below `addr` there is no floor entry.
pub proof fn lemma_floor_none(m: Map<Vaddr, ShadowObject>, addr: Vaddr)
    requires
        forall|k: Vaddr| m.contains_key(k) ==> k > addr,
    ensures
        floor_entry(m, addr) is None,
{
}

/// A table with a key at or below `addr` has a floor key for `addr`.
pub proof fn lemma_floor_exists(m: Map<Vaddr, ShadowObject>, addr: Vaddr, k: Vaddr)
    requires
        m.contains_key(k),
        k <= addr,
    ensures
        exists|f: Vaddr| is_floor_key(m, addr, f),
    decreases addr - k,
{
    if exists|j: Vaddr| m.contains_key(j) && k < j <= addr {
        let j = choose|j: Vaddr| m.contains_key(j) && k < j <= addr;
        lemma_floor_exists(m, addr, j);
    } else {
        assert(is_floor_key(m, addr, k));
    }
}

/// The entries of a key range of a `BTreeMap` that are still to come, in the
/// order in which a walk from the front meets them.
pub uninterp spec fn range_items(r: Range<'_, Vaddr, ShadowObject>) -> Seq<(Vaddr, ShadowObject)>;

/// `std::collections::btree_map::Range`, the iterator over a key range of
/// a `BTreeMap`. Nothing is known of one but what `range_items` names.
#[verifier::external_type_specification]
#[verifier::external_body]
#[verifier::reject_recursive_types(K)]
#[verifier::reject_recursive_types(V)]
pub struct ExRange<'a, K, V>(Range<'a, K, V>);

/// `BTreeMap::range` over the keys up to and including `addr`. The range
/// holds exactly the entries of the map whose key is not above `addr`, each
/// once, in increasing key order.
#[verifier::external_body]
fn range_through<'a>(table: &'a BTreeMap<Vaddr, ShadowObject>, addr: Vaddr) -> (r: Range<
    'a,
    Vaddr,
    ShadowObject,
>)
    ensures
        forall|i: int|
            0 <= i < range_items(r).len() ==> {
                let (k, v) = #[trigger] range_items(r)[i];
                table@.contains_key(k) && table@[k] == v && k <= addr
            },
        forall|k: Vaddr|
            #[trigger] table@.contains_key(k) && k <= addr ==> exists|i: int|
                0 <= i < range_items(r).len() && (#[trigger] range_items(r)[i]).0 == k,
        forall|i: int, j: int|
            0 <= i < j < range_items(r).len() ==> (#[trigger] range_items(r)[i]).0 < (
            #[trigger] range_items(r)[j]).0,
{
    table.range(..=addr)
}

/// `DoubleEndedIterator::next_back` on a key range: takes the last entry
/// that is still to come off the range and returns it, or returns `None`
/// and leaves the range as it is when no entry is left.
#[verifier::external_body]
fn range_next_back<'a>(r: &mut Range<'a, Vaddr, ShadowObject>) -> (item: Option<
    (&'a Vaddr, &'a ShadowObject),
>)
    ensures
        match item {
            Some((k, v)) => {
                &&& range_items(*old(r)).len() > 0
                &&& range_items(*old(r)).last() == (*k, *v)
                &&& range_items(*final(r)) == range_items(*old(r)).drop_last()
            },
            None => range_items(*old(r)).len() == 0 && range_items(*final(r)) == range_items(
                *old(r),
            ),
        },
{
    r.next_back()
}

/// An address-ordered table of shadow objects, keyed by base address.
pub struct ShadowObjectTable {
    table: BTreeMap<Vaddr, ShadowObject>,
}

impl ShadowObjectTable {
    /// The table as a map from base address to object.
    pub closed spec fn view(&self) -> Map<Vaddr, ShadowObject> {
        self.table@
    }

    /// Every entry is keyed by its own base and is a well-formed object.
    pub open spec fn wf(&self) -> bool {
        table_wf(self@)
    }

    /// What `search_intersection` reports for `addr`.
    pub open spec fn spec_search_intersection(&self, addr: Vaddr) -> Option<ShadowObject> {
        intersection_of(self@, addr)
    }

    /// What `search_invalid` reports for `addr`.
    pub open spec fn spec_search_invalid(&self, addr: Vaddr) -> Option<ShadowObject> {
        invalid_of(self@, addr)
    }

    /// An empty table.
    pub fn new() -> (t: ShadowObjectTable)
        ensures
            t@ == Map::<Vaddr, ShadowObject>::empty(),
            t.wf(),
    {
        ShadowObjectTable { table: BTreeMap::new() }
    }

    /// Records a region of `size` bytes at `base`, replacing any object
    /// already recorded at `base`.
    pub fn add_shadow_object(&mut self, alloc_type: AllocType, base: Vaddr, size: usize)
        requires
            old(self).wf(),
            ShadowObject::fits(base, size),
        ensures
            final(self).wf(),
            final(self)@ == old(self)@.insert(base, ShadowObject::spec_new(alloc_type, base, size)),
    {
        let sobj = ShadowObject { alloc_type, base, limit: ShadowObject::limit(base, size) };
        self.table.insert(base, sobj);
    }

    /// Removes the shadow object whose base is `base`; does nothing if
    /// there is none.
    pub fn invalidate_at(&mut self, base: Vaddr)
        requires
            old(self).wf(),
        ensures
            final(self).wf(),
            final(self)@ == old(self)@.remove(base),
    {
        let _ = self.table.remove(&base);
    }

    /// The entry with the greatest base that is not above `addr`.
    fn floor(&self, addr: Vaddr) -> (r: Option<&ShadowObject>)
        ensures
            match r {
                Some(o) => floor_entry(self@, addr) == Some(*o) && exists|k: Vaddr|
                    is_floor_key(self@, addr, k) && self@[k] == *o,
                None => floor_entry(self@, addr) is None && forall|k: Vaddr|
                    self@.contains_key(k) ==> k > addr,
            },
    {
        let mut range = range_through(&self.table, addr);
        let ghost items = range_items(range);
        match range_next_back(&mut range) {
            Some((_, o)) => {
                proof {
                    let last = items.len() - 1;
                    let k = items[last].0;
                    assert(self@.contains_key(k) && self@[k] == *o);
                    assert forall|j: Vaddr| #[trigger] self@.contains_key(j) && j <= addr implies j
                        <= k by {
                        let i = choose|i: int| 0 <= i < items.len() && (#[trigger] items[i]).0 == j;
                        if i < last {
                            assert(items[i].0 < items[last].0);
                        }
                    }
                    assert(is_floor_key(self@, addr, k));
                    lemma_floor_key_unique(self@, addr, k);
                }
                Some(o)
            },
            None => {
                proof {
                    assert forall|k: Vaddr| self@.contains_key(k) implies k > addr by {
                        if k <= addr {
                            let i = choose|i: int|
                                0 <= i < items.len() && (#[trigger] items[i]).0 == k;
                            assert(false);
                        }
                    }
                    lemma_floor_none(self@, addr);
                }
                None
            },
        }
    }

    /// Removes every shadow object whose base lies in `[base, limit]`.
    pub fn invalidate_region(&mut self, base: Vaddr, limit: Vaddr)
        requires
            old(self).wf(),
        ensures
            final(self).wf(),
            final(self)@ == old(self)@.remove_keys(region_keys(base, limit)),
            forall|k: Vaddr|
                final(self)@.contains_key(k) <==> old(self)@.contains_key(k) && !(base <= k
                    <= limit),
            forall|k: Vaddr| final(self)@.contains_key(k) ==> final(self)@[k] == old(self)@[k],
    {
        loop
            invariant
                self.wf(),
                forall|k: Vaddr| #[trigger]
                    self@.contains_key(k) ==> old(self)@.contains_key(k) && self@[k] == old(
                        self,
                    )@[k],
                forall|k: Vaddr| #[trigger]
                    old(self)@.contains_key(k) && !(base <= k <= limit) ==> self@.contains_key(k),
            ensures
                forall|k: Vaddr| #[trigger] self@.contains_key(k) ==> !(base <= k <= limit),
            decreases self@.len(),
        {
            let found = match self.floor(limit) {
                Some(o) => if o.base >= base {
                    Some(o.base)
                } else {
                    None
                },
                None => None,
            };
            match found {
                Some(k) => {
                    let _ = self.table.remove(&k);
                },
                None => {
                    break ;
                },
            }
        }
        assert(self@ =~= old(self)@.remove_keys(region_keys(base, limit)));
    }

    /// Finds the shadow object that holds `addr` or ends just before it:
    /// the entry with the greatest base not above `addr`, if `addr` is not
    /// more than one past its limit.
    pub fn search_intersection(&self, addr: Vaddr) -> (r: Option<&ShadowObject>)
        ensures
            match r {
                Some(o) => self.spec_search_intersection(addr) == Some(*o),
                None => self.spec_search_intersection(addr) is None,
            },
    {
        match self.floor(addr) {
            Some(o) => if addr <= o.limit || addr - o.limit == 1 {
                Some(o)
            } else {
                None
            },
            None => None,
        }
    }

    /// Finds the shadow object whose one-past-the-end address is `addr`:
    /// the entry with the greatest base not above `addr`, if `addr` is
    /// exactly one past its limit.
    pub fn search_invalid(&self, addr: Vaddr) -> (r: Option<&ShadowObject>)
        ensures
            match r {
                Some(o) => self.spec_search_invalid(addr) == Some(*o),
                None => self.spec_search_invalid(addr) is None,
            },
    {
        match self.floor(addr) {
            Some(o) => if addr > o.limit && addr - o.limit == 1 {
                Some(o)
            } else {
                None
            },
            None => None,
        }
    }
}

} // verus!
