//! The decisions behind the remediation entry points.
//!
//! Instrumented code reports every allocation, release, pointer derivation
//! and memory access. Each function here takes the tables it needs and the
//! plain values of one such report, updates the tables, and returns what the
//! entry point answers: a pointer, a verdict, a kind. Pointers are virtual
//! addresses; zero is the null pointer.
//!
//! Three tables take part. `stack` holds the stack objects of the calling
//! thread, `alive` the live heap and global objects of the process, and
//! `freed` a record of what has been released.

use crate::shadowobjs::{
    intersection_of, invalid_of, AllocType, ShadowObject, ShadowObjectTable, Vaddr,
};
use vstd::prelude::*;

verus! {

/// The bounds of an allocation as handed across the C boundary; both zero
/// means "not tracked".
#[derive(Debug, Clone, Copy, PartialEq, Eq, Structural)]
pub struct ShadowObjBounds {
    pub base: Vaddr,
    pub limit: Vaddr,
}

/// How a pointer operation was classified.
#[derive(Debug, Clone, Copy, PartialEq, Eq, Structural)]
pub enum Verdict {
    /// The pointer is null.
    Null,
    /// No table knows the pointer; it is taken to be valid.
    Untracked,
    /// The access lies inside the object.
    InBounds(ShadowObject),
    /// The object was found for the pointer, and the access leaves it.
    OutOfBounds(ShadowObject),
    /// The pointer is the one-past-the-end address of the object: the
    /// program computed a pointer that is known to be invalid.
    OnePast(ShadowObject),
}

impl Verdict {
    /// The operation may go ahead: the access is in bounds, or the pointer
    /// is untracked.
    pub open spec fn spec_passes(self) -> bool {
        self is InBounds || self is Untracked
    }

    /// Tells whether the operation may go ahead.
    pub fn passes(&self) -> (r: bool)
        ensures
            r == self.spec_passes(),
    {
        match self {
            Verdict::InBounds(_) => true,
            Verdict::Untracked => true,
            _ => false,
        }
    }
}

/// Every entry has a kind that describes a live allocation.
pub open spec fn all_live(m: Map<Vaddr, ShadowObject>) -> bool {
    forall|k: Vaddr| #[trigger] m.contains_key(k) ==> m[k].alloc_type.is_live()
}

/// Every entry is marked `Unallocated`.
pub open spec fn all_unallocated(m: Map<Vaddr, ShadowObject>) -> bool {
    forall|k: Vaddr| #[trigger] m.contains_key(k) ==> m[k].alloc_type is Unallocated
}

/// The object found for `addr`: the one the stack table reports, else the
/// one the alive table reports.
pub open spec fn lookup_of(
    stack: Map<Vaddr, ShadowObject>,
    alive: Map<Vaddr, ShadowObject>,
    addr: Vaddr,
) -> Option<ShadowObject> {
    match intersection_of(stack, addr) {
        Some(o) => Some(o),
        None => intersection_of(alive, addr),
    }
}

/// An access of `size` bytes at `addr` lies inside `[o.base, o.limit]`. An
/// access of no bytes is judged by `addr` alone.
pub open spec fn access_within(o: ShadowObject, addr: Vaddr, size: usize) -> bool {
    o.base <= addr && ShadowObject::spec_limit(addr, size) <= o.limit
}

/// The verdict on deriving `derived` from the root pointer `base` for an
/// access of `max_access` bytes.
pub open spec fn gep_verdict(
    stack: Map<Vaddr, ShadowObject>,
    alive: Map<Vaddr, ShadowObject>,
    base: Vaddr,
    derived: Vaddr,
    max_access: usize,
) -> Verdict {
    match lookup_of(stack, alive, base) {
        None => Verdict::Untracked,
        Some(o) => if access_within(o, derived, max_access) {
            Verdict::InBounds(o)
        } else {
            Verdict::OutOfBounds(o)
        },
    }
}

/// The pointer that `resolve_gep` hands back: `derived` where the root is
/// untracked or the access lies inside the root's object, null otherwise.
pub open spec fn gep_result(
    stack: Map<Vaddr, ShadowObject>,
    alive: Map<Vaddr, ShadowObject>,
    base: Vaddr,
    derived: Vaddr,
    max_access: usize,
) -> Vaddr {
    match lookup_of(stack, alive, base) {
        None => derived,
        Some(o) => if access_within(o, derived, max_access) {
            derived
        } else {
            0
        },
    }
}

/// The verdict on an access of `size` bytes at `base`.
pub open spec fn bounds_verdict(
    stack: Map<Vaddr, ShadowObject>,
    alive: Map<Vaddr, ShadowObject>,
    base: Vaddr,
    size: usize,
) -> Verdict {
    if base == 0 {
        Verdict::Null
    } else {
        match lookup_of(stack, alive, base) {
            Some(o) => if access_within(o, base, size) {
                Verdict::InBounds(o)
            } else if base == o.limit + 1 {
                Verdict::OnePast(o)
            } else {
                Verdict::OutOfBounds(o)
            },
            None => match invalid_of(alive, base) {
                Some(o) => Verdict::OnePast(o),
                None => Verdict::Untracked,
            },
        }
    }
}

/// Whether `resolve_check_bounds` lets an access of `size` bytes at `base`
/// pass.
pub open spec fn bounds_result(
    stack: Map<Vaddr, ShadowObject>,
    alive: Map<Vaddr, ShadowObject>,
    base: Vaddr,
    size: usize,
) -> bool {
    base != 0 && match lookup_of(stack, alive, base) {
        Some(o) => access_within(o, base, size),
        None => invalid_of(alive, base) is None,
    }
}

/// The kind reported for `addr`: that of the first object found when the
/// stack table, the freed table and the alive table are asked in this order,
/// and `Unknown` when none reports one.
pub open spec fn obj_type_of(
    stack: Map<Vaddr, ShadowObject>,
    freed: Map<Vaddr, ShadowObject>,
    alive: Map<Vaddr, ShadowObject>,
    addr: Vaddr,
) -> AllocType {
    match intersection_of(stack, addr) {
        Some(o) => o.alloc_type,
        None => match intersection_of(freed, addr) {
            Some(o) => o.alloc_type,
            None => match intersection_of(alive, addr) {
                Some(o) => o.alloc_type,
                None => AllocType::Unknown,
            },
        },
    }
}

/// The bounds reported for `addr` from the alive table.
pub open spec fn bounds_of(alive: Map<Vaddr, ShadowObject>, addr: Vaddr) -> ShadowObjBounds {
    match intersection_of(alive, addr) {
        Some(o) => ShadowObjBounds { base: o.base, limit: o.limit },
        None => ShadowObjBounds { base: 0, limit: 0 },
    }
}

/// The size that releasing `ptr` discovers in the alive table.
pub open spec fn found_size(alive: Map<Vaddr, ShadowObject>, ptr: Vaddr) -> Option<usize> {
    match intersection_of(alive, ptr) {
        Some(o) => Some(o.spec_size() as usize),
        None => None,
    }
}

/// The size recorded in the freed table for a release that discovered
/// `found`: the size found, or zero.
pub open spec fn freed_size(found: Option<usize>) -> usize {
    match found {
        Some(size) => size,
        None => 0,
    }
}

/// The alive table after a heap object of `size` bytes was recorded at
/// `ptr`; a null `ptr` records nothing.
pub open spec fn with_heap(alive: Map<Vaddr, ShadowObject>, ptr: Vaddr, size: usize) -> Map<
    Vaddr,
    ShadowObject,
> {
    if ptr == 0 {
        alive
    } else {
        alive.insert(ptr, ShadowObject::spec_new(AllocType::Heap, ptr, size))
    }
}

/// The alive table after a block at `old_ptr` was reallocated to `size`
/// bytes at `new_ptr`; a null `new_ptr` changes nothing, a null `old_ptr`
/// removes nothing.
pub open spec fn with_realloc(
    alive: Map<Vaddr, ShadowObject>,
    old_ptr: Vaddr,
    new_ptr: Vaddr,
    size: usize,
) -> Map<Vaddr, ShadowObject> {
    if new_ptr == 0 {
        alive
    } else if old_ptr == 0 {
        alive.insert(new_ptr, ShadowObject::spec_new(AllocType::Heap, new_ptr, size))
    } else {
        alive.remove(old_ptr).insert(
            new_ptr,
            ShadowObject::spec_new(AllocType::Heap, new_ptr, size),
        )
    }
}

/// The freed table after a release of `ptr` that discovered `found`.
pub open spec fn with_freed(
    freed: Map<Vaddr, ShadowObject>,
    ptr: Vaddr,
    found: Option<usize>,
) -> Map<Vaddr, ShadowObject> {
    freed.insert(ptr, ShadowObject::spec_new(AllocType::Unallocated, ptr, freed_size(found)))
}

/// The number of bytes to ask the allocator for when the program asks for
/// `size`: one more, so that the one-past-the-end address is readable.
/// `None` when that number does not fit a machine word.
pub fn alloc_request(size: usize) -> (r: Option<usize>)
    ensures
        r == if size < usize::MAX {
            Some((size + 1) as usize)
        } else {
            None
        },
{
    size.checked_add(1)
}

/// Tests whether an access of `size` bytes at `addr` lies inside `o`.
fn is_within(o: &ShadowObject, addr: Vaddr, size: usize) -> (r: bool)
    ensures
        r == access_within(*o, addr, size),
{
    o.base <= addr && addr <= o.limit && (size <= 1 || size - 1 <= o.limit - addr)
}

/// Looks `addr` up in the stack table, then in the alive table.
fn lookup<'a>(stack: &'a ShadowObjectTable, alive: &'a ShadowObjectTable, addr: Vaddr) -> (r:
    Option<&'a ShadowObject>)
    ensures
        match r {
            Some(o) => lookup_of(stack@, alive@, addr) == Some(*o),
            None => lookup_of(stack@, alive@, addr) is None,
        },
{
    match stack.search_intersection(addr) {
        Some(o) => Some(o),
        None => alive.search_intersection(addr),
    }
}

/// Records a heap object of `size` bytes at `ptr` unless `ptr` is null.
fn record_heap(alive: &mut ShadowObjectTable, ptr: Vaddr, size: usize)
    requires
        old(alive).wf(),
        ptr != 0 ==> ShadowObject::fits(ptr, size),
    ensures
        final(alive).wf(),
        final(alive)@ == with_heap(old(alive)@, ptr, size),
        all_live(old(alive)@) ==> all_live(final(alive)@),
{
    if ptr != 0 {
        alive.add_shadow_object(AllocType::Heap, ptr, size);
    }
}

/// Records a stack object of `size` bytes at `ptr` in the stack table.
pub fn resolve_stack_obj(stack: &mut ShadowObjectTable, ptr: Vaddr, size: usize)
    requires
        old(stack).wf(),
        ShadowObject::fits(ptr, size),
    ensures
        final(stack).wf(),
        final(stack)@ == old(stack)@.insert(
            ptr,
            ShadowObject::spec_new(AllocType::Stack, ptr, size),
        ),
        all_live(old(stack)@) ==> all_live(final(stack)@),
{
    stack.add_shadow_object(AllocType::Stack, ptr, size);
}

/// Forgets the stack object whose base is `base`, if there is one.
pub fn resolve_invalidate_stack(stack: &mut ShadowObjectTable, base: Vaddr)
    requires
        old(stack).wf(),
    ensures
        final(stack).wf(),
        final(stack)@ == old(stack)@.remove(base),
        all_live(old(stack)@) ==> all_live(final(stack)@),
{
    stack.invalidate_at(base);
}

/// Forgets the stack objects whose bases are `base1` and `base2`.
pub fn resolve_invalidate_stack_2(stack: &mut ShadowObjectTable, base1: Vaddr, base2: Vaddr)
    requires
        old(stack).wf(),
    ensures
        final(stack).wf(),
        final(stack)@ == old(stack)@.remove(base1).remove(base2),
        all_live(old(stack)@) ==> all_live(final(stack)@),
{
    resolve_invalidate_stack(stack, base1);
    resolve_invalidate_stack(stack, base2);
}

/// Forgets the stack objects whose bases are `base1` to `base3`.
pub fn resolve_invalidate_stack_3(stack: &mut ShadowObjectTable, base1: Vaddr, base2: Vaddr, base3: Vaddr)
    requires
        old(stack).wf(),
    ensures
        final(stack).wf(),
        final(stack)@ == old(stack)@.remove(base1).remove(base2).remove(base3),
        all_live(old(stack)@) ==> all_live(final(stack)@),
{
    resolve_invalidate_stack_2(stack, base1, base2);
    resolve_invalidate_stack(stack, base3);
}

/// Forgets the stack objects whose bases are `base1` to `base4`.
pub fn resolve_invalidate_stack_4(
    stack: &mut ShadowObjectTable,
    base1: Vaddr,
    base2: Vaddr,
    base3: Vaddr,
    base4: Vaddr,
)
    requires
        old(stack).wf(),
    ensures
        final(stack).wf(),
        final(stack)@ == old(stack)@.remove(base1).remove(base2).remove(base3).remove(base4),
        all_live(old(stack)@) ==> all_live(final(stack)@),
{
    resolve_invalidate_stack_3(stack, base1, base2, base3);
    resolve_invalidate_stack(stack, base4);
}

/// Forgets the stack objects whose bases are `base1` to `base5`.
pub fn resolve_invalidate_stack_5(
    stack: &mut ShadowObjectTable,
    base1: Vaddr,
    base2: Vaddr,
    base3: Vaddr,
    base4: Vaddr,
    base5: Vaddr,
)
    requires
        old(stack).wf(),
    ensures
        final(stack).wf(),
        final(stack)@ == old(stack)@.remove(base1).remove(base2).remove(base3).remove(base4).remove(base5),
        all_live(old(stack)@) ==> all_live(final(stack)@),
{
    resolve_invalidate_stack_4(stack, base1, base2, base3, base4);
    resolve_invalidate_stack(stack, base5);
}

/// Forgets the stack objects whose bases are `base1` to `base6`.
pub fn resolve_invalidate_stack_6(
    stack: &mut ShadowObjectTable,
    base1: Vaddr,
    base2: Vaddr,
    base3: Vaddr,
    base4: Vaddr,
    base5: Vaddr,
    base6: Vaddr,
)
    requires
        old(stack).wf(),
    ensures
        final(stack).wf(),
        final(stack)@ == old(stack)@.remove(base1).remove(base2).remove(base3).remove(base4).remove(base5).remove(
            base6,
        ),
        all_live(old(stack)@) ==> all_live(final(stack)@),
{
    resolve_invalidate_stack_5(stack, base1, base2, base3, base4, base5);
    resolve_invalidate_stack(stack, base6);
}

/// Takes in what `malloc` returned for a request of `size` bytes: records a
/// heap object of `size` bytes at `ptr` unless `ptr` is null, and hands
/// `ptr` back.
pub fn resolve_malloc(alive: &mut ShadowObjectTable, ptr: Vaddr, size: usize) -> (r: Vaddr)
    requires
        old(alive).wf(),
        ptr != 0 ==> ShadowObject::fits(ptr, size),
    ensures
        r == ptr,
        final(alive).wf(),
        final(alive)@ == with_heap(old(alive)@, ptr, size),
        all_live(old(alive)@) ==> all_live(final(alive)@),
{
    record_heap(alive, ptr, size);
    ptr
}

/// Takes in what `memcpy` returned for a copy of `size` bytes: records a
/// heap object of `size` bytes at `ptr`, the destination, unless `ptr` is
/// null, and hands `ptr` back.
pub fn resolve_memcpy(alive: &mut ShadowObjectTable, ptr: Vaddr, size: usize) -> (r: Vaddr)
    requires
        old(alive).wf(),
        ptr != 0 ==> ShadowObject::fits(ptr, size),
    ensures
        r == ptr,
        final(alive).wf(),
        final(alive)@ == with_heap(old(alive)@, ptr, size),
        all_live(old(alive)@) ==> all_live(final(alive)@),
{
    record_heap(alive, ptr, size);
    ptr
}

/// Takes in what `calloc` returned for `n_items` items of `item_size`
/// bytes: records a heap object of `n_items * item_size` bytes at `ptr`
/// unless `ptr` is null, and hands `ptr` back.
pub fn resolve_calloc(
    alive: &mut ShadowObjectTable,
    ptr: Vaddr,
    n_items: usize,
    item_size: usize,
) -> (r: Vaddr)
    requires
        old(alive).wf(),
        ptr != 0 ==> n_items * item_size <= usize::MAX && ShadowObject::fits(
            ptr,
            (n_items * item_size) as usize,
        ),
    ensures
        r == ptr,
        final(alive).wf(),
        final(alive)@ == with_heap(old(alive)@, ptr, (n_items * item_size) as usize),
        all_live(old(alive)@) ==> all_live(final(alive)@),
{
    if ptr == 0 {
        return ptr;
    }
    let size: usize = n_items * item_size;
    record_heap(alive, ptr, size);
    ptr
}

/// Takes in what `realloc` returned when the block at `old_ptr` was resized
/// to `size` bytes. Unless `new_ptr` is null, forgets the object whose base
/// is `old_ptr` (nothing, for a null `old_ptr`) and records a heap object of
/// `size` bytes at `new_ptr`. Hands `new_ptr` back.
pub fn resolve_realloc(
    alive: &mut ShadowObjectTable,
    old_ptr: Vaddr,
    new_ptr: Vaddr,
    size: usize,
) -> (r: Vaddr)
    requires
        old(alive).wf(),
        new_ptr != 0 ==> ShadowObject::fits(new_ptr, size),
    ensures
        r == new_ptr,
        final(alive).wf(),
        final(alive)@ == with_realloc(old(alive)@, old_ptr, new_ptr, size),
        old_ptr == 0 ==> final(alive)@ == with_heap(old(alive)@, new_ptr, size),
        old_ptr == 0 ==> old(alive)@.dom().subset_of(final(alive)@.dom()),
        all_live(old(alive)@) ==> all_live(final(alive)@),
{
    if new_ptr == 0 {
        return new_ptr;
    }
    if old_ptr != 0 {
        alive.invalidate_at(old_ptr);
    }
    alive.add_shadow_object(AllocType::Heap, new_ptr, size);
    new_ptr
}

/// Takes in what `strdup` returned for a string of `len` bytes before its
/// terminator: records a heap object of `len + 1` bytes at `ptr` unless
/// `ptr` is null, and hands `ptr` back.
pub fn resolve_strdup(alive: &mut ShadowObjectTable, ptr: Vaddr, len: usize) -> (r: Vaddr)
    requires
        old(alive).wf(),
        ptr != 0 ==> len < usize::MAX && ShadowObject::fits(ptr, (len + 1) as usize),
    ensures
        r == ptr,
        final(alive).wf(),
        final(alive)@ == with_heap(old(alive)@, ptr, (len + 1) as usize),
        all_live(old(alive)@) ==> all_live(final(alive)@),
{
    if ptr == 0 {
        return ptr;
    }
    record_heap(alive, ptr, len + 1);
    ptr
}

/// Takes in what `strndup` returned for a string of which `len` bytes were
/// copied: records a heap object of `len + 1` bytes at `ptr` unless `ptr`
/// is null, and hands `ptr` back.
pub fn resolve_strndup(alive: &mut ShadowObjectTable, ptr: Vaddr, len: usize) -> (r: Vaddr)
    requires
        old(alive).wf(),
        ptr != 0 ==> len < usize::MAX && ShadowObject::fits(ptr, (len + 1) as usize),
    ensures
        r == ptr,
        final(alive).wf(),
        final(alive)@ == with_heap(old(alive)@, ptr, (len + 1) as usize),
        all_live(old(alive)@) ==> all_live(final(alive)@),
{
    if ptr == 0 {
        return ptr;
    }
    record_heap(alive, ptr, len + 1);
    ptr
}

/// The first half of a release: looks `ptr` up in the alive table, forgets
/// the object whose base is `ptr`, and returns the size of the object that
/// the lookup found.
pub fn take_alive(alive: &mut ShadowObjectTable, ptr: Vaddr) -> (found: Option<usize>)
    requires
        old(alive).wf(),
    ensures
        final(alive).wf(),
        final(alive)@ == old(alive)@.remove(ptr),
        found == found_size(old(alive)@, ptr),
        all_live(old(alive)@) ==> all_live(final(alive)@),
{
    let found = match alive.search_intersection(ptr) {
        Some(o) => {
            proof {
                crate::table_lemmas::lemma_intersection_is_floor(alive@, ptr);
            }
            Some(o.size())
        },
        None => None,
    };
    alive.invalidate_at(ptr);
    found
}

/// The second half of a release: records `ptr` in the freed table as
/// `Unallocated`, with the size that the first half found, or zero.
pub fn record_freed(freed: &mut ShadowObjectTable, ptr: Vaddr, found: Option<usize>)
    requires
        old(freed).wf(),
        ShadowObject::fits(ptr, freed_size(found)),
    ensures
        final(freed).wf(),
        final(freed)@ == with_freed(old(freed)@, ptr, found),
        all_unallocated(old(freed)@) ==> all_unallocated(final(freed)@),
{
    let size: usize = match found {
        Some(size) => size,
        None => 0,
    };
    freed.add_shadow_object(AllocType::Unallocated, ptr, size);
}

/// Releases `ptr`: forgets the alive object whose base is `ptr` and records
/// `ptr` in the freed table with the size that a lookup of `ptr` in the
/// alive table found, or zero. Returns that size; `None` says that the
/// pointer was unknown.
pub fn resolve_free(alive: &mut ShadowObjectTable, freed: &mut ShadowObjectTable, ptr: Vaddr) -> (found:
    Option<usize>)
    requires
        old(alive).wf(),
        old(freed).wf(),
        ShadowObject::fits(ptr, freed_size(found_size(old(alive)@, ptr))),
    ensures
        final(alive).wf(),
        final(freed).wf(),
        found == found_size(old(alive)@, ptr),
        final(alive)@ == old(alive)@.remove(ptr),
        final(freed)@ == with_freed(old(freed)@, ptr, found),
        all_live(old(alive)@) ==> all_live(final(alive)@),
        all_unallocated(old(freed)@) ==> all_unallocated(final(freed)@),
{
    let found = take_alive(alive, ptr);
    record_freed(freed, ptr, found);
    found
}

/// Classifies the derivation of `derived` from the root pointer `base` for
/// an access of `max_access` bytes.
pub fn classify_gep(
    stack: &ShadowObjectTable,
    alive: &ShadowObjectTable,
    base: Vaddr,
    derived: Vaddr,
    max_access: usize,
) -> (v: Verdict)
    ensures
        v == gep_verdict(stack@, alive@, base, derived, max_access),
        gep_result(stack@, alive@, base, derived, max_access) == if v.spec_passes() {
            derived
        } else {
            0
        },
{
    match lookup(stack, alive, base) {
        None => Verdict::Untracked,
        Some(o) => if is_within(o, derived, max_access) {
            Verdict::InBounds(*o)
        } else {
            Verdict::OutOfBounds(*o)
        },
    }
}

/// Checks a derived pointer against the object of its root. Returns
/// `derived` where the root is untracked or the access of `max_access`
/// bytes at `derived` lies inside the root's object, and null otherwise.
pub fn resolve_gep(
    stack: &ShadowObjectTable,
    alive: &ShadowObjectTable,
    base: Vaddr,
    derived: Vaddr,
    max_access: usize,
) -> (r: Vaddr)
    ensures
        r == gep_result(stack@, alive@, base, derived, max_access),
        r == derived || r == 0,
        lookup_of(stack@, alive@, base) is None ==> r == derived,
{
    if classify_gep(stack, alive, base, derived, max_access).passes() {
        derived
    } else {
        0
    }
}

/// Classifies an access of `size` bytes at `base`.
pub fn classify_bounds(
    stack: &ShadowObjectTable,
    alive: &ShadowObjectTable,
    base: Vaddr,
    size: usize,
) -> (v: Verdict)
    ensures
        v == bounds_verdict(stack@, alive@, base, size),
        bounds_result(stack@, alive@, base, size) == v.spec_passes(),
{
    if base == 0 {
        return Verdict::Null;
    }
    match lookup(stack, alive, base) {
        Some(o) => if is_within(o, base, size) {
            Verdict::InBounds(*o)
        } else if base > o.limit && base - o.limit == 1 {
            Verdict::OnePast(*o)
        } else {
            Verdict::OutOfBounds(*o)
        },
        None => match alive.search_invalid(base) {
            Some(o) => Verdict::OnePast(*o),
            None => Verdict::Untracked,
        },
    }
}

/// Tells whether an access of `size` bytes at `base` may go ahead: not for
/// a null pointer, not where the object found for `base` does not hold the
/// whole access, not where `base` is one past the end of an alive object;
/// an untracked pointer passes.
pub fn resolve_check_bounds(
    stack: &ShadowObjectTable,
    alive: &ShadowObjectTable,
    base: Vaddr,
    size: usize,
) -> (r: bool)
    ensures
        r == bounds_result(stack@, alive@, base, size),
        base == 0 ==> !r,
{
    classify_bounds(stack, alive, base, size).passes()
}

/// Reports the kind of the object found for `addr`, asking the stack
/// table, then the freed table, then the alive table; `Unknown` when none
/// of them finds one.
pub fn resolve_obj_type(
    stack: &ShadowObjectTable,
    freed: &ShadowObjectTable,
    alive: &ShadowObjectTable,
    addr: Vaddr,
) -> (kind: AllocType)
    ensures
        kind == obj_type_of(stack@, freed@, alive@, addr),
{
    match stack.search_intersection(addr) {
        Some(o) => o.alloc_type,
        None => match freed.search_intersection(addr) {
            Some(o) => o.alloc_type,
            None => match alive.search_intersection(addr) {
                Some(o) => o.alloc_type,
                None => AllocType::Unknown,
            },
        },
    }
}

/// Reports the bounds of the alive object found for `addr`, or null bounds
/// when the alive table finds none.
pub fn resolve_get_base_and_limit(alive: &ShadowObjectTable, addr: Vaddr) -> (b: ShadowObjBounds)
    ensures
        b == bounds_of(alive@, addr),
{
    match alive.search_intersection(addr) {
        Some(o) => ShadowObjBounds { base: o.base, limit: o.limit },
        None => ShadowObjBounds { base: 0, limit: 0 },
    }
}

} // verus!
