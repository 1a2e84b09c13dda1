use libresolve::shadowobjs::{AllocType, ShadowObject, ShadowObjectTable};

fn obj(alloc_type: AllocType, base: usize, limit: usize) -> ShadowObject {
    ShadowObject { alloc_type, base, limit }
}

#[test]
fn limit_of_a_region() {
    assert_eq!(ShadowObject::limit(0x1000, 16), 0x100f);
    assert_eq!(ShadowObject::limit(0x1000, 1), 0x1000);
    assert_eq!(ShadowObject::limit(0, 1), 0);
    assert_eq!(ShadowObject::limit(usize::MAX, 1), usize::MAX);
    assert_eq!(ShadowObject::limit(1, usize::MAX), usize::MAX);
}

#[test]
fn limit_of_an_empty_region_is_its_base() {
    assert_eq!(ShadowObject::limit(0x1000, 0), 0x1000);
    assert_eq!(ShadowObject::limit(0, 0), 0);
    assert_eq!(ShadowObject::limit(usize::MAX, 0), usize::MAX);
}

#[test]
fn object_size_contains_and_past_limit() {
    let o = obj(AllocType::Heap, 0x1000, 0x100f);
    assert_eq!(o.size(), 16);
    assert_eq!(o.past_limit(), 0x1010);
    assert!(o.contains(0x1000));
    assert!(o.contains(0x100f));
    assert!(!o.contains(0x0fff));
    assert!(!o.contains(0x1010));
    let r = o.bounds();
    assert_eq!(*r.start(), 0x1000);
    assert_eq!(*r.end(), 0x100f);
    assert!(r.contains(&0x1008));
}

#[test]
fn size_of_the_largest_object() {
    let o = obj(AllocType::Global, 1, usize::MAX);
    assert_eq!(o.size(), usize::MAX);
}

#[test]
fn wire_encoding_of_kinds() {
    assert_eq!(AllocType::Unallocated.to_wire(), 0);
    assert_eq!(AllocType::Unknown.to_wire(), 1);
    assert_eq!(AllocType::Heap.to_wire(), 2);
    assert_eq!(AllocType::Stack.to_wire(), 3);
    assert_eq!(AllocType::Global.to_wire(), 4);
    for kind in [
        AllocType::Unallocated,
        AllocType::Unknown,
        AllocType::Heap,
        AllocType::Stack,
        AllocType::Global,
    ] {
        assert_eq!(AllocType::from_wire(kind.to_wire()), Some(kind));
    }
    assert_eq!(AllocType::from_wire(5), None);
    assert_eq!(AllocType::from_wire(255), None);
}

#[test]
fn empty_table_finds_nothing() {
    let t = ShadowObjectTable::new();
    assert!(t.search_intersection(0).is_none());
    assert!(t.search_intersection(0x1000).is_none());
    assert!(t.search_intersection(usize::MAX).is_none());
    assert!(t.search_invalid(0).is_none());
    assert!(t.search_invalid(usize::MAX).is_none());
}

#[test]
fn search_finds_the_object_that_holds_the_address() {
    let mut t = ShadowObjectTable::new();
    t.add_shadow_object(AllocType::Heap, 0x1000, 16);
    t.add_shadow_object(AllocType::Stack, 0x2000, 8);
    t.add_shadow_object(AllocType::Global, 0x3000, 1);
    for a in 0x1000..0x1010usize {
        assert_eq!(t.search_intersection(a), Some(&obj(AllocType::Heap, 0x1000, 0x100f)));
    }
    for a in 0x2000..0x2008usize {
        assert_eq!(t.search_intersection(a), Some(&obj(AllocType::Stack, 0x2000, 0x2007)));
    }
    assert_eq!(t.search_intersection(0x3000), Some(&obj(AllocType::Global, 0x3000, 0x3000)));
    assert!(t.search_intersection(0x0fff).is_none());
    assert!(t.search_intersection(0x1011).is_none());
    assert!(t.search_intersection(0x1fff).is_none());
    assert!(t.search_intersection(0x2009).is_none());
    assert!(t.search_intersection(0x3002).is_none());
}

#[test]
fn search_treats_one_past_as_intersecting() {
    let mut t = ShadowObjectTable::new();
    t.add_shadow_object(AllocType::Heap, 0x1000, 16);
    assert_eq!(t.search_intersection(0x1010), Some(&obj(AllocType::Heap, 0x1000, 0x100f)));
    assert_eq!(t.search_invalid(0x1010), Some(&obj(AllocType::Heap, 0x1000, 0x100f)));
    assert!(t.search_invalid(0x100f).is_none());
    assert!(t.search_invalid(0x1000).is_none());
    assert!(t.search_invalid(0x1011).is_none());
}

#[test]
fn one_past_and_next_allocation() {
    let mut t = ShadowObjectTable::new();
    let p = 0x4000usize;
    t.add_shadow_object(AllocType::Heap, p, 8);
    let q = p + 8;
    assert_eq!(t.search_invalid(q), Some(&obj(AllocType::Heap, p, p + 7)));
    assert_eq!(t.search_intersection(q), Some(&obj(AllocType::Heap, p, p + 7)));
    t.add_shadow_object(AllocType::Heap, q, 4);
    assert_eq!(t.search_intersection(q), Some(&obj(AllocType::Heap, q, q + 3)));
    assert!(t.search_invalid(q).is_none());
    assert_eq!(t.search_intersection(p + 7), Some(&obj(AllocType::Heap, p, p + 7)));
}

#[test]
fn zero_sized_allocation() {
    let mut t = ShadowObjectTable::new();
    t.add_shadow_object(AllocType::Heap, 0x5000, 0);
    let expected = obj(AllocType::Heap, 0x5000, 0x5000);
    assert_eq!(t.search_intersection(0x5000), Some(&expected));
    assert_eq!(t.search_intersection(0x5001), Some(&expected));
    assert_eq!(t.search_invalid(0x5001), Some(&expected));
    assert!(t.search_invalid(0x5000).is_none());
    assert!(t.search_intersection(0x5002).is_none());
    assert!(t.search_intersection(0x4fff).is_none());
}

#[test]
fn reinserting_replaces() {
    let mut a = ShadowObjectTable::new();
    a.add_shadow_object(AllocType::Heap, 0x1000, 16);
    a.add_shadow_object(AllocType::Stack, 0x1000, 4);

    let mut b = ShadowObjectTable::new();
    b.add_shadow_object(AllocType::Heap, 0x1000, 16);
    b.invalidate_at(0x1000);
    b.add_shadow_object(AllocType::Stack, 0x1000, 4);

    for addr in 0x0ff0..0x1020usize {
        assert_eq!(a.search_intersection(addr), b.search_intersection(addr));
        assert_eq!(a.search_invalid(addr), b.search_invalid(addr));
    }
    assert_eq!(a.search_intersection(0x1000), Some(&obj(AllocType::Stack, 0x1000, 0x1003)));
    assert!(a.search_intersection(0x1008).is_none());
}

#[test]
fn removing_twice_equals_once() {
    let mut once = ShadowObjectTable::new();
    let mut twice = ShadowObjectTable::new();
    for t in [&mut once, &mut twice] {
        t.add_shadow_object(AllocType::Heap, 0x1000, 16);
        t.add_shadow_object(AllocType::Heap, 0x2000, 16);
    }
    once.invalidate_at(0x1000);
    twice.invalidate_at(0x1000);
    twice.invalidate_at(0x1000);
    for addr in [0x1000usize, 0x1008, 0x1010, 0x2000, 0x200f, 0x2010] {
        assert_eq!(once.search_intersection(addr), twice.search_intersection(addr));
    }
    assert!(twice.search_intersection(0x1000).is_none());
    assert_eq!(twice.search_intersection(0x2000), Some(&obj(AllocType::Heap, 0x2000, 0x200f)));
}

#[test]
fn removing_an_absent_base_changes_nothing() {
    let mut t = ShadowObjectTable::new();
    t.add_shadow_object(AllocType::Heap, 0x1000, 16);
    t.invalidate_at(0x1008);
    t.invalidate_at(0);
    assert_eq!(t.search_intersection(0x1008), Some(&obj(AllocType::Heap, 0x1000, 0x100f)));
}

#[test]
fn invalidate_region_removes_exactly_the_bases_inside() {
    let mut t = ShadowObjectTable::new();
    let bases = [0x0ff0usize, 0x1000, 0x1010, 0x1020, 0x1030, 0x1040];
    for b in bases {
        t.add_shadow_object(AllocType::Stack, b, 8);
    }
    t.invalidate_region(0x1000, 0x1030);
    assert_eq!(t.search_intersection(0x0ff0), Some(&obj(AllocType::Stack, 0x0ff0, 0x0ff7)));
    assert_eq!(t.search_intersection(0x1040), Some(&obj(AllocType::Stack, 0x1040, 0x1047)));
    for b in [0x1000usize, 0x1010, 0x1020, 0x1030] {
        assert!(t.search_intersection(b).is_none());
    }
}

#[test]
fn invalidate_region_goes_by_base_not_by_extent() {
    let mut t = ShadowObjectTable::new();
    t.add_shadow_object(AllocType::Stack, 0x1000, 0x100);
    t.add_shadow_object(AllocType::Stack, 0x2000, 0x100);
    // The first object reaches into the region, but its base lies before it.
    t.invalidate_region(0x1080, 0x2000);
    assert_eq!(t.search_intersection(0x1080), Some(&obj(AllocType::Stack, 0x1000, 0x10ff)));
    assert!(t.search_intersection(0x2000).is_none());
}

#[test]
fn invalidate_region_with_empty_or_whole_range() {
    let mut t = ShadowObjectTable::new();
    t.add_shadow_object(AllocType::Heap, 0x1000, 16);
    t.add_shadow_object(AllocType::Heap, usize::MAX, 1);
    t.add_shadow_object(AllocType::Heap, 0, 1);
    t.invalidate_region(0x2000, 0x1000);
    assert!(t.search_intersection(0x1000).is_some());
    t.invalidate_region(0, usize::MAX);
    assert!(t.search_intersection(0).is_none());
    assert!(t.search_intersection(0x1000).is_none());
    assert!(t.search_intersection(usize::MAX).is_none());
}

#[test]
fn inner_entry_wins_where_entries_overlap() {
    let mut t = ShadowObjectTable::new();
    t.add_shadow_object(AllocType::Heap, 0x1000, 0x100);
    t.add_shadow_object(AllocType::Stack, 0x1040, 0x10);
    assert_eq!(t.search_intersection(0x1048), Some(&obj(AllocType::Stack, 0x1040, 0x104f)));
    assert_eq!(t.search_intersection(0x1020), Some(&obj(AllocType::Heap, 0x1000, 0x10ff)));
    // Behind the inner entry the outer one is hidden.
    assert!(t.search_intersection(0x1080).is_none());
}

#[test]
fn objects_at_the_ends_of_the_address_space() {
    let mut t = ShadowObjectTable::new();
    t.add_shadow_object(AllocType::Global, 0, 4);
    t.add_shadow_object(AllocType::Global, usize::MAX - 3, 4);
    assert_eq!(t.search_intersection(0), Some(&obj(AllocType::Global, 0, 3)));
    assert_eq!(t.search_intersection(4), Some(&obj(AllocType::Global, 0, 3)));
    assert_eq!(
        t.search_intersection(usize::MAX),
        Some(&obj(AllocType::Global, usize::MAX - 3, usize::MAX))
    );
    assert!(t.search_invalid(usize::MAX).is_none());
    assert!(t.search_intersection(usize::MAX - 4).is_none());
}

#[test]
fn disjoint_entries_are_found_uniquely() {
    let mut t = ShadowObjectTable::new();
    let mut expected: Vec<ShadowObject> = Vec::new();
    let mut base = 0x10000usize;
    for size in 1..40usize {
        t.add_shadow_object(AllocType::Heap, base, size);
        expected.push(obj(AllocType::Heap, base, base + size - 1));
        base += size + 1 + (size % 3);
    }
    for addr in 0xfff0usize..base + 8 {
        let holders: Vec<&ShadowObject> =
            expected.iter().filter(|o| o.base <= addr && addr <= o.limit).collect();
        let enders: Vec<&ShadowObject> = expected.iter().filter(|o| o.limit + 1 == addr).collect();
        assert!(holders.len() <= 1);
        assert!(enders.len() <= 1);
        let want = if !holders.is_empty() {
            Some(holders[0])
        } else if !enders.is_empty() {
            Some(enders[0])
        } else {
            None
        };
        assert_eq!(t.search_intersection(addr), want);
        let want_invalid = if holders.is_empty() && !enders.is_empty() {
            Some(enders[0])
        } else {
            None
        };
        assert_eq!(t.search_invalid(addr), want_invalid);
    }
}
