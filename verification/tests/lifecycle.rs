use engine::ecs::generational_entries::GenerationalEntries;
use engine::ecs::generational_index::{GenerationalIndex, GenerationalIndexAllocator};

/// An identifier with the given slot and generation, made by an allocator of
/// its own: `slot + 1` allocations, then `generation` rounds of freeing and
/// reusing the last slot.
fn identifier(slot: usize, generation: u64) -> GenerationalIndex {
    let mut allocator = GenerationalIndexAllocator::default();
    let mut id = allocator.allocate();
    for _ in 0..slot {
        id = allocator.allocate();
    }
    for _ in 0..generation {
        assert!(allocator.deallocate(id));
        id = allocator.allocate();
    }
    assert_eq!(id.index(), slot);
    assert_eq!(id.generation(), generation);
    id
}

#[test]
fn allocations_without_free_take_consecutive_slots() {
    let mut allocator = GenerationalIndexAllocator::default();
    for expected in 0..100usize {
        let id = allocator.allocate();
        assert_eq!(id.index(), expected);
        assert_eq!(id.generation(), 0);
    }
}

#[test]
fn allocated_identifier_is_live() {
    let mut allocator = GenerationalIndexAllocator::default();
    let first = allocator.allocate();
    assert!(allocator.is_live(first));
    let second = allocator.allocate();
    assert!(allocator.is_live(first));
    assert!(allocator.is_live(second));
    assert!(allocator.deallocate(first));
    let third = allocator.allocate();
    assert!(allocator.is_live(third));
    assert!(allocator.is_live(second));
}

#[test]
fn deallocate_succeeds_once() {
    let mut allocator = GenerationalIndexAllocator::default();
    let kept = allocator.allocate();
    let id = allocator.allocate();
    assert_eq!(allocator.deallocate(id), true);
    assert_eq!(allocator.is_live(id), false);
    assert_eq!(allocator.deallocate(id), false);
    assert_eq!(allocator.is_live(id), false);
    assert_eq!(allocator.is_live(kept), true);
    // the refused attempt left one free slot, not two
    let reused = allocator.allocate();
    assert_eq!((reused.index(), reused.generation()), (1, 1));
    let fresh = allocator.allocate();
    assert_eq!((fresh.index(), fresh.generation()), (2, 0));
}

#[test]
fn reuse_raises_the_generation_by_one() {
    let mut allocator = GenerationalIndexAllocator::default();
    let mut id = allocator.allocate();
    for expected in 1..=5u64 {
        assert!(allocator.deallocate(id));
        let next = allocator.allocate();
        assert_eq!(next.index(), id.index());
        assert_eq!(next.generation(), id.generation() + 1);
        assert_eq!(next.generation(), expected);
        id = next;
    }
}

#[test]
fn slot_freed_last_is_reused_first() {
    let mut allocator = GenerationalIndexAllocator::default();
    let a = allocator.allocate();
    let _b = allocator.allocate();
    let c = allocator.allocate();
    assert!(allocator.deallocate(a));
    assert!(allocator.deallocate(c));
    let first = allocator.allocate();
    assert_eq!((first.index(), first.generation()), (2, 1));
    let second = allocator.allocate();
    assert_eq!((second.index(), second.generation()), (0, 1));
    let third = allocator.allocate();
    assert_eq!((third.index(), third.generation()), (3, 0));
}

#[test]
fn consecutive_identifiers_differ() {
    let mut allocator = GenerationalIndexAllocator::default();
    let a = allocator.allocate();
    let b = allocator.allocate();
    assert_ne!(a, b);
    assert_ne!(a.index(), b.index());
    assert!(allocator.deallocate(a));
    // one slot free: the first allocation reuses it, the second cannot
    let c = allocator.allocate();
    let d = allocator.allocate();
    assert_ne!(c, d);
    assert_ne!(c.index(), d.index());
    assert_eq!((c.index(), c.generation()), (0, 1));
    assert_eq!((d.index(), d.generation()), (2, 0));
}

#[test]
fn identifiers_are_equal_by_slot_and_generation() {
    assert_eq!(identifier(3, 2), identifier(3, 2));
    assert_ne!(identifier(3, 2), identifier(3, 1));
    assert_ne!(identifier(3, 2), identifier(2, 2));
    let id = identifier(1, 1);
    let copy = id;
    assert_eq!(id, copy);
}

#[test]
fn unknown_slot_is_not_live_and_cannot_be_freed() {
    let mut allocator = GenerationalIndexAllocator::default();
    let foreign = identifier(4, 0);
    assert_eq!(allocator.is_live(foreign), false);
    assert_eq!(allocator.deallocate(foreign), false);
    let first = allocator.allocate();
    assert_eq!((first.index(), first.generation()), (0, 0));
    assert_eq!(allocator.is_live(foreign), false);
    assert_eq!(allocator.deallocate(foreign), false);
    // the slot just behind the last one does not exist either
    let behind = identifier(1, 0);
    assert_eq!(allocator.is_live(behind), false);
    assert_eq!(allocator.deallocate(behind), false);
    let second = allocator.allocate();
    assert_eq!((second.index(), second.generation()), (1, 0));
}

#[test]
fn liveness_and_freeing_go_by_the_slot_alone() {
    let mut allocator = GenerationalIndexAllocator::default();
    let retired = allocator.allocate();
    assert!(allocator.deallocate(retired));
    let current = allocator.allocate();
    assert_eq!((current.index(), current.generation()), (0, 1));
    // the retired identifier names the same slot, which is live again
    assert_eq!(allocator.is_live(retired), true);
    assert_eq!(allocator.deallocate(retired), true);
    assert_eq!(allocator.is_live(current), false);
    let next = allocator.allocate();
    assert_eq!((next.index(), next.generation()), (0, 2));
}

#[test]
fn fresh_allocator_can_allocate() {
    let mut allocator = GenerationalIndexAllocator::default();
    assert!(allocator.can_allocate());
    let id = allocator.allocate();
    assert!(allocator.can_allocate());
    assert!(allocator.deallocate(id));
    assert!(allocator.can_allocate());
}

#[test]
fn set_then_get_returns_the_value() {
    let mut allocator = GenerationalIndexAllocator::default();
    let mut names = GenerationalEntries::<String>::default();
    let a = allocator.allocate();
    let b = allocator.allocate();
    names.set(a, String::from("camera"));
    names.set(b, String::from("teapot"));
    assert_eq!(names.get(a), Some(&String::from("camera")));
    assert_eq!(names.get(b), Some(&String::from("teapot")));
}

#[test]
fn set_replaces_the_value_of_the_slot() {
    let mut allocator = GenerationalIndexAllocator::default();
    let mut values = GenerationalEntries::<u32>::default();
    let id = allocator.allocate();
    values.set(id, 1);
    values.set(id, 2);
    assert_eq!(values.get(id), Some(&2));
    assert_eq!(values.len(), 1);
}

#[test]
fn store_covers_the_slots_set_so_far() {
    let mut allocator = GenerationalIndexAllocator::default();
    let mut values = GenerationalEntries::<u8>::default();
    assert_eq!(values.len(), 0);
    let a = allocator.allocate();
    let b = allocator.allocate();
    values.set(a, 10);
    assert_eq!(values.len(), 1);
    values.set(b, 20);
    assert_eq!(values.len(), 2);
    values.set(a, 30);
    assert_eq!(values.len(), 2);
}

#[test]
fn lookup_outside_the_store_finds_nothing() {
    let mut values = GenerationalEntries::<u32>::default();
    let id = identifier(0, 0);
    assert_eq!(values.get(id), None);
    assert_eq!(values.get_mut(id), None);
    values.set(id, 5);
    let behind = identifier(1, 0);
    let far = identifier(7, 3);
    assert_eq!(values.get(behind), None);
    assert_eq!(values.get(far), None);
    assert_eq!(values.get_mut(behind), None);
    assert_eq!(values.get_mut(far), None);
    assert_eq!(values.get(id), Some(&5));
}

#[test]
fn get_mut_writes_through() {
    let mut allocator = GenerationalIndexAllocator::default();
    let mut values = GenerationalEntries::<u32>::default();
    let a = allocator.allocate();
    let b = allocator.allocate();
    values.set(a, 1);
    values.set(b, 2);
    match values.get_mut(a) {
        Some(value) => {
            assert_eq!(*value, 1);
            *value = 100;
        }
        None => panic!("the value set under the identifier is missing"),
    }
    assert_eq!(values.get(a), Some(&100));
    assert_eq!(values.get(b), Some(&2));
    assert_eq!(values.len(), 2);
}

#[test]
fn get_mut_refuses_another_generation() {
    let mut allocator = GenerationalIndexAllocator::default();
    let mut values = GenerationalEntries::<u32>::default();
    let retired = allocator.allocate();
    assert!(allocator.deallocate(retired));
    let current = allocator.allocate();
    values.set(current, 8);
    assert_eq!(values.get_mut(retired), None);
    assert_eq!(values.get(current), Some(&8));
    assert_eq!(values.get_mut(current), Some(&mut 8));
}

#[test]
fn store_answers_to_one_generation_of_a_slot() {
    let mut allocator = GenerationalIndexAllocator::default();
    let retired = allocator.allocate();
    assert!(allocator.deallocate(retired));
    let current = allocator.allocate();
    assert_eq!(current.index(), retired.index());
    assert_eq!(current.generation(), retired.generation() + 1);

    // a store that was never written to has nothing for either
    let untouched = GenerationalEntries::<u32>::default();
    assert_eq!(untouched.get(retired), None);
    assert_eq!(untouched.get(current), None);

    // a store that still holds the value of the retired identifier has
    // nothing for the current one
    let mut values = GenerationalEntries::<u32>::default();
    values.set(retired, 7);
    assert_eq!(values.get(current), None);
    assert_eq!(values.get(retired), Some(&7));

    // once the current identifier has a value, the retired one has none
    values.set(current, 9);
    assert_eq!(values.get(retired), None);
    assert_eq!(values.get(current), Some(&9));
}

#[test]
fn vertex_array_handle_is_hidden_after_reuse() {
    let mut allocator = GenerationalIndexAllocator::default();
    let mut vaos = GenerationalEntries::<u32>::default();
    let id0 = allocator.allocate();
    assert_eq!((id0.index(), id0.generation()), (0, 0));
    vaos.set(id0, 7);
    assert_eq!(allocator.deallocate(id0), true);
    let id1 = allocator.allocate();
    assert_eq!((id1.index(), id1.generation()), (0, 1));
    assert_eq!(vaos.get(id1), None);
    // slot 0 gets the handle of its new occupant
    vaos.set(id1, 8);
    assert_eq!(vaos.get(id0), None);
    assert_eq!(vaos.get(id1), Some(&8));
}

#[test]
fn model_matrix_survives_the_reuse_of_another_slot() {
    let m0: [f32; 16] = [
        1.0, 0.0, 0.0, 0.0, 0.0, 1.0, 0.0, 0.0, 0.0, 0.0, 1.0, 0.0, 0.0, 0.0, 0.0, 1.0,
    ];
    let m1: [f32; 16] = [
        2.0, 0.0, 0.0, 0.0, 0.0, 2.0, 0.0, 0.0, 0.0, 0.0, 2.0, 0.0, 0.5, 0.5, 0.5, 1.0,
    ];
    let m2: [f32; 16] = [0.25; 16];
    let mut allocator = GenerationalIndexAllocator::default();
    let mut model_matrices = GenerationalEntries::<[f32; 16]>::default();
    let id0 = allocator.allocate();
    let id1 = allocator.allocate();
    assert_eq!((id0.index(), id0.generation()), (0, 0));
    assert_eq!((id1.index(), id1.generation()), (1, 0));
    model_matrices.set(id0, m0);
    model_matrices.set(id1, m1);
    assert_eq!(model_matrices.get(id0), Some(&m0));
    assert_eq!(model_matrices.get(id1), Some(&m1));
    assert_eq!(allocator.deallocate(id1), true);
    let id2 = allocator.allocate();
    assert_eq!((id2.index(), id2.generation()), (1, 1));
    assert_eq!(model_matrices.get(id2), None);
    model_matrices.set(id2, m2);
    assert_eq!(model_matrices.get(id1), None);
    assert_eq!(model_matrices.get(id2), Some(&m2));
    assert_eq!(model_matrices.get(id0), Some(&m0));
}

#[test]
fn no_identifier_is_issued_twice() {
    let mut allocator = GenerationalIndexAllocator::default();
    let mut issued: Vec<GenerationalIndex> = Vec::new();
    let mut held: Vec<GenerationalIndex> = Vec::new();
    let mut state: u64 = 0x2545_f491_4f6c_dd1d;
    for _ in 0..600 {
        state = state.wrapping_mul(6364136223846793005).wrapping_add(1442695040888963407);
        let choice = (state >> 33) as usize;
        if held.is_empty() || choice % 3 != 0 {
            assert!(allocator.can_allocate());
            let id = allocator.allocate();
            assert!(!issued.contains(&id));
            assert!(allocator.is_live(id));
            issued.push(id);
            held.push(id);
        } else {
            let id = held.swap_remove(choice % held.len());
            assert!(allocator.deallocate(id));
            assert!(!allocator.is_live(id));
        }
        // identifiers in use never share a slot
        for (position, a) in held.iter().enumerate() {
            assert!(allocator.is_live(*a));
            for b in &held[position + 1..] {
                assert_ne!(a.index(), b.index());
            }
        }
    }
}

#[test]
fn store_in_step_with_the_allocator_serves_every_identifier() {
    let mut allocator = GenerationalIndexAllocator::default();
    let mut values = GenerationalEntries::<u64>::default();
    let mut held: Vec<(GenerationalIndex, u64)> = Vec::new();
    let mut retired: Vec<GenerationalIndex> = Vec::new();
    let mut state: u64 = 0x9e37_79b9_7f4a_7c15;
    for round in 0..500u64 {
        state = state.wrapping_mul(6364136223846793005).wrapping_add(1442695040888963407);
        let choice = (state >> 33) as usize;
        if held.is_empty() || choice % 2 == 0 {
            let id = allocator.allocate();
            assert!(id.index() <= values.len());
            values.set(id, round);
            held.push((id, round));
        } else {
            let (id, _) = held.swap_remove(choice % held.len());
            assert!(allocator.deallocate(id));
            retired.push(id);
        }
        for (id, value) in &held {
            assert_eq!(values.get(*id), Some(value));
        }
    }
    // every slot has been written again or still holds its last value; an
    // identifier that was retired and whose slot was reused finds nothing
    for id in &retired {
        let reused = held.iter().any(|(current, _)| current.index() == id.index());
        if reused {
            assert_eq!(values.get(*id), None);
        }
    }
}
