//! What holds of the remediation decisions across calls.

use crate::remediate::{
    bounds_result, found_size, gep_result, lookup_of, obj_type_of, with_freed, with_heap,
    with_realloc,
};
use crate::shadowobjs::{
    intersection_of, invalid_of, is_floor_key, lemma_floor_key_unique, table_wf, AllocType,
    ShadowObject, Vaddr,
};
use crate::table_lemmas::lemma_intersection_is_floor;
use vstd::prelude::*;

verus! {

/// A heap object that was just recorded at `ptr` is what the alive table
/// reports for `ptr`, and releasing `ptr` discovers its size: the size
/// recorded, or one byte for an empty object.
pub proof fn lemma_recorded_heap_found(alive: Map<Vaddr, ShadowObject>, ptr: Vaddr, size: usize)
    requires
        table_wf(alive),
        ptr != 0,
        ShadowObject::fits(ptr, size),
    ensures
        table_wf(with_heap(alive, ptr, size)),
        intersection_of(with_heap(alive, ptr, size), ptr) == Some(
            ShadowObject::spec_new(AllocType::Heap, ptr, size),
        ),
        found_size(with_heap(alive, ptr, size), ptr) == Some(
            if size == 0 {
                1usize
            } else {
                size
            },
        ),
{
    let after = with_heap(alive, ptr, size);
    assert(is_floor_key(after, ptr, ptr));
    lemma_floor_key_unique(after, ptr, ptr);
}

/// After memory was allocated at `ptr` and before it is released, its kind
/// is reported as `Heap`, provided no table that is asked before the alive
/// table reports an object of another kind for `ptr`.
pub proof fn lemma_heap_before_free(
    stack: Map<Vaddr, ShadowObject>,
    freed: Map<Vaddr, ShadowObject>,
    alive: Map<Vaddr, ShadowObject>,
    ptr: Vaddr,
    size: usize,
)
    requires
        table_wf(alive),
        ptr != 0,
        ShadowObject::fits(ptr, size),
        match intersection_of(stack, ptr) {
            Some(o) => o.alloc_type is Heap,
            None => match intersection_of(freed, ptr) {
                Some(o) => o.alloc_type is Heap,
                None => true,
            },
        },
    ensures
        obj_type_of(stack, freed, with_heap(alive, ptr, size), ptr) == AllocType::Heap,
{
    lemma_recorded_heap_found(alive, ptr, size);
}

/// After `ptr` was released its kind is reported as `Unallocated`, provided
/// the stack table reports no object of another kind for `ptr`.
pub proof fn lemma_unallocated_after_free(
    stack: Map<Vaddr, ShadowObject>,
    freed: Map<Vaddr, ShadowObject>,
    alive: Map<Vaddr, ShadowObject>,
    ptr: Vaddr,
)
    requires
        table_wf(freed),
        ShadowObject::fits(ptr, crate::remediate::freed_size(found_size(alive, ptr))),
        match intersection_of(stack, ptr) {
            Some(o) => o.alloc_type is Unallocated,
            None => true,
        },
    ensures
        obj_type_of(
            stack,
            with_freed(freed, ptr, found_size(alive, ptr)),
            alive.remove(ptr),
            ptr,
        ) == AllocType::Unallocated,
{
    let after = with_freed(freed, ptr, found_size(alive, ptr));
    assert(is_floor_key(after, ptr, ptr));
    lemma_floor_key_unique(after, ptr, ptr);
}

/// Allocation, then release: where neither the stack table nor the freed
/// table reports an object for `ptr`, the kind of `ptr` is `Heap` after the
/// allocation and `Unallocated` after the release, and the release records
/// the size that was allocated.
pub proof fn lemma_malloc_free_round_trip(
    stack: Map<Vaddr, ShadowObject>,
    freed: Map<Vaddr, ShadowObject>,
    alive: Map<Vaddr, ShadowObject>,
    ptr: Vaddr,
    size: usize,
)
    requires
        table_wf(alive),
        table_wf(freed),
        ptr != 0,
        ShadowObject::fits(ptr, size),
        intersection_of(stack, ptr) is None,
        intersection_of(freed, ptr) is None,
    ensures
        ({
            let allocated = with_heap(alive, ptr, size);
            let found = found_size(allocated, ptr);
            let released = allocated.remove(ptr);
            let retired = with_freed(freed, ptr, found);
            &&& obj_type_of(stack, freed, allocated, ptr) == AllocType::Heap
            &&& found == Some(
                if size == 0 {
                    1usize
                } else {
                    size
                },
            )
            &&& !released.contains_key(ptr)
            &&& retired[ptr] == ShadowObject::spec_new(
                AllocType::Unallocated,
                ptr,
                crate::remediate::freed_size(found),
            )
            &&& obj_type_of(stack, retired, released, ptr) == AllocType::Unallocated
        }),
{
    let allocated = with_heap(alive, ptr, size);
    lemma_recorded_heap_found(alive, ptr, size);
    lemma_heap_before_free(stack, freed, alive, ptr, size);
    lemma_unallocated_after_free(stack, freed, allocated, ptr);
}

/// An access at the null pointer never passes the bounds check.
pub proof fn lemma_null_never_in_bounds(
    stack: Map<Vaddr, ShadowObject>,
    alive: Map<Vaddr, ShadowObject>,
    size: usize,
)
    ensures
        !bounds_result(stack, alive, 0, size),
{
}

/// A derived pointer whose root no table knows is handed back unchanged.
pub proof fn lemma_gep_untracked_passes(
    stack: Map<Vaddr, ShadowObject>,
    alive: Map<Vaddr, ShadowObject>,
    base: Vaddr,
    derived: Vaddr,
    max_access: usize,
)
    requires
        lookup_of(stack, alive, base) is None,
    ensures
        gep_result(stack, alive, base, derived, max_access) == derived,
{
}

/// Reallocating the null pointer records the new object and removes
/// nothing: every object recorded before is still recorded, and unchanged
/// unless its base is the new pointer.
pub proof fn lemma_realloc_null_inserts(
    alive: Map<Vaddr, ShadowObject>,
    new_ptr: Vaddr,
    size: usize,
)
    requires
        new_ptr != 0,
    ensures
        with_realloc(alive, 0, new_ptr, size) == alive.insert(
            new_ptr,
            ShadowObject::spec_new(AllocType::Heap, new_ptr, size),
        ),
        forall|k: Vaddr| alive.contains_key(k) ==> with_realloc(alive, 0, new_ptr, size).contains_key(k),
        forall|k: Vaddr|
            alive.contains_key(k) && k != new_ptr ==> with_realloc(alive, 0, new_ptr, size)[k]
                == alive[k],
{
}

/// An access passes the bounds check exactly when its pointer is not null
/// and either the object found for it holds the whole access or no table
/// knows the pointer. A pointer that is one past the end of an object never
/// passes.
pub proof fn lemma_bounds_check_cases(
    stack: Map<Vaddr, ShadowObject>,
    alive: Map<Vaddr, ShadowObject>,
    base: Vaddr,
    size: usize,
)
    requires
        table_wf(stack),
        table_wf(alive),
    ensures
        bounds_result(stack, alive, base, size) <==> base != 0 && match lookup_of(
            stack,
            alive,
            base,
        ) {
            Some(o) => o.base <= base && ShadowObject::spec_limit(base, size) <= o.limit,
            None => true,
        },
        forall|o: ShadowObject|
            lookup_of(stack, alive, base) == Some(o) && o.limit + 1 == base ==> !bounds_result(
                stack,
                alive,
                base,
                size,
            ),
{
    lemma_intersection_is_floor(alive, base);
    lemma_intersection_is_floor(stack, base);
    if lookup_of(stack, alive, base) is None {
        assert(invalid_of(alive, base) is None);
    }
}

} // verus!
