//! Identifiers made of a slot number and a generation, and the allocator
//! that issues them.
//!
//! The allocator keeps one record per slot and a stack of the slots that are
//! free. A slot that is freed keeps its record, and the next allocation takes
//! the slot freed last and raises its generation by one, so the identifier of
//! the earlier occupant never equals that of the later one.

use crate::ecs::allocator_state::AllocatorEntry;
use crate::ecs::allocator_state::AllocatorState;
use vstd::prelude::*;

verus! {

/// A handle to one occupancy of a slot: the slot's number and the generation
/// the slot had when the handle was issued.
#[derive(Clone, Copy, Debug, PartialEq, Eq, Structural)]
pub struct GenerationalIndex {
    index: usize,
    generation: u64,
}

impl GenerationalIndex {
    /// The slot number, as contracts speak of it.
    pub closed spec fn spec_index(&self) -> usize {
        self.index
    }

    /// The generation, as contracts speak of it.
    pub closed spec fn spec_generation(&self) -> u64 {
        self.generation
    }

    /// The number of the slot this identifier refers to.
    #[verifier::when_used_as_spec(spec_index)]
    pub fn index(&self) -> (index: usize)
        ensures
            index == self.index(),
    {
        self.index
    }

    /// The generation of the slot at the time this identifier was issued.
    #[verifier::when_used_as_spec(spec_generation)]
    pub fn generation(&self) -> (generation: u64)
        ensures
            generation == self.generation(),
    {
        self.generation
    }

    /// Two identifiers are the same exactly when they name the same slot in
    /// the same generation.
    pub proof fn lemma_equal_by_fields(a: GenerationalIndex, b: GenerationalIndex)
        ensures
            a == b <==> a.index() == b.index() && a.generation() == b.generation(),
    {
    }
}

/// Hands out identifiers and takes them back.
pub struct GenerationalIndexAllocator {
    entries: Vec<AllocatorEntry>,
    free: Vec<usize>,
}

impl View for GenerationalIndexAllocator {
    type V = AllocatorState;

    closed spec fn view(&self) -> AllocatorState {
        AllocatorState { slots: self.entries@, free: self.free@ }
    }
}

impl Default for GenerationalIndexAllocator {
    /// An allocator that has not issued anything yet.
    fn default() -> (allocator: Self)
        ensures
            allocator@ == AllocatorState::empty(),
            allocator@.wf(),
    {
        GenerationalIndexAllocator { entries: Vec::new(), free: Vec::new() }
    }
}

impl GenerationalIndexAllocator {
    /// Every allocator is well formed at all times.
    #[verifier::type_invariant]
    spec fn well_formed(&self) -> bool {
        self@.wf()
    }

    /// Tells whether `allocate` may be called: it may unless the slot it
    /// would reuse has used up all generations.
    pub fn can_allocate(&self) -> (fits: bool)
        ensures
            fits == self@.can_allocate(),
            self@.wf(),
    {
        proof {
            use_type_invariant(self);
        }
        let free_count: usize = self.free.len();
        if free_count == 0 {
            true
        } else {
            let slot: usize = self.free[free_count - 1];
            self.entries[slot].generation < u64::MAX
        }
    }

    /// Issues an identifier. The slot freed last is reused, one generation
    /// later; where no slot is free a new slot is added, in generation zero.
    /// The generation must fit in 64 bits, which `can_allocate` tells.
    pub fn allocate(&mut self) -> (id: GenerationalIndex)
        requires
            old(self)@.can_allocate(),
        ensures
            final(self)@ == old(self)@.allocate(),
            id.index() == old(self)@.next_slot(),
            id.generation() == old(self)@.next_generation(),
            !old(self)@.is_live(id.index()),
            final(self)@.is_live(id.index()),
            final(self)@.is_current(id.index(), id.generation()),
            old(self)@.wf(),
            final(self)@.wf(),
    {
        proof {
            use_type_invariant(&*self);
            old(self)@.lemma_allocate_wf();
        }
        // The two vectors are changed one after the other, so they leave the
        // allocator for the time in between.
        let mut taken = GenerationalIndexAllocator::default();
        core::mem::swap(self, &mut taken);
        let GenerationalIndexAllocator { mut entries, mut free } = taken;
        let id = match free.pop() {
            Some(free_index) => {
                let generation: u64 = entries[free_index].generation + 1;
                entries[free_index] = AllocatorEntry { is_live: true, generation };
                GenerationalIndex { index: free_index, generation }
            },
            None => {
                let index: usize = entries.len();
                entries.push(AllocatorEntry { is_live: true, generation: 0 });
                GenerationalIndex { index, generation: 0 }
            },
        };
        *self = GenerationalIndexAllocator { entries, free };
        id
    }

    /// Takes the slot of `id` back and tells whether it did: `true` where
    /// the slot was live, `false` where it does not exist or is free already,
    /// in which case nothing changes. Only the slot of `id` is looked at, not
    /// its generation.
    pub fn deallocate(&mut self, id: GenerationalIndex) -> (freed: bool)
        ensures
            freed == old(self)@.is_live(id.index()),
            final(self)@ == old(self)@.deallocate(id.index()),
            !final(self)@.is_live(id.index()),
            old(self)@.wf(),
            final(self)@.wf(),
    {
        proof {
            use_type_invariant(&*self);
            old(self)@.lemma_deallocate_wf(id.index());
        }
        let index: usize = id.index;
        if index >= self.entries.len() {
            return false;
        }
        let was_live: bool = self.entries[index].is_live;
        if was_live {
            let mut taken = GenerationalIndexAllocator::default();
            core::mem::swap(self, &mut taken);
            let GenerationalIndexAllocator { mut entries, mut free } = taken;
            let generation: u64 = entries[index].generation;
            free.push(index);
            entries[index] = AllocatorEntry { is_live: false, generation };
            *self = GenerationalIndexAllocator { entries, free };
        }
        was_live
    }

    /// Whether the slot of `id` is handed out at present. A slot that does
    /// not exist is not live. The generation of `id` plays no part.
    pub fn is_live(&self, id: GenerationalIndex) -> (live: bool)
        ensures
            live == self@.is_live(id.index()),
    {
        let index: usize = id.index;
        index < self.entries.len() && self.entries[index].is_live
    }
}

} // verus!
