//! The allocator as a mathematical value, and what follows from the way
//! allocation and freeing change it.
//!
//! The contracts of the allocator are stated over [`AllocatorState`]: each
//! call takes the state to the one that the function of the same name gives
//! here. The lemmas then speak of these functions alone.

use vstd::prelude::*;

verus! {

/// What the allocator records for one slot.
pub struct AllocatorEntry {
    /// Whether an identifier for this slot is currently handed out.
    pub is_live: bool,
    /// The generation of the identifier handed out last for this slot.
    pub generation: u64,
}

/// The allocator as a mathematical value: the record of every slot, by slot
/// number, and the stack of free slots, the one freed last at the end.
#[verifier::ext_equal]
pub struct AllocatorState {
    pub slots: Seq<AllocatorEntry>,
    pub free: Seq<usize>,
}

impl AllocatorState {
    /// The state of an allocator that has not issued anything yet.
    pub open spec fn empty() -> AllocatorState {
        AllocatorState { slots: Seq::empty(), free: Seq::empty() }
    }

    /// The free stack names existing slots, names none twice, and holds
    /// exactly the slots that are not live.
    pub open spec fn wf(self) -> bool {
        &&& self.free.no_duplicates()
        &&& forall|k: int| 0 <= k < self.free.len() ==> (#[trigger] self.free[k]) < self.slots.len()
        &&& forall|slot: usize|
            slot < self.slots.len() ==> (#[trigger] self.slots[slot as int]).is_live
                == !self.free.contains(slot)
    }

    /// Whether `slot` exists and is handed out. The generation of the
    /// identifier that asks plays no part.
    pub open spec fn is_live(self, slot: usize) -> bool {
        slot < self.slots.len() && self.slots[slot as int].is_live
    }

    /// Whether `slot` is handed out in exactly this generation, so that an
    /// identifier made of the two is not stale.
    pub open spec fn is_current(self, slot: usize, generation: u64) -> bool {
        self.is_live(slot) && self.slots[slot as int].generation == generation
    }

    /// Whether `slot` exists and has come as far as `generation`. This holds
    /// of the slot and generation of every identifier that was handed out.
    pub open spec fn has_reached(self, slot: int, generation: int) -> bool {
        0 <= slot < self.slots.len() && generation <= self.slots[slot].generation
    }

    /// Whether the next allocation has a slot to reuse.
    pub open spec fn reuses(self) -> bool {
        self.free.len() > 0
    }

    /// Whether the generation that the next allocation hands out fits in
    /// 64 bits. It always does where no slot is free.
    pub open spec fn can_allocate(self) -> bool {
        self.reuses() ==> self.slots[self.free.last() as int].generation < u64::MAX
    }

    /// The slot of the identifier that the next allocation returns: the slot
    /// freed last, or a new slot behind the existing ones.
    pub open spec fn next_slot(self) -> int {
        if self.reuses() {
            self.free.last() as int
        } else {
            self.slots.len() as int
        }
    }

    /// The generation of the identifier that the next allocation returns:
    /// one more than the reused slot had, or zero for a new slot.
    pub open spec fn next_generation(self) -> int {
        if self.reuses() {
            self.slots[self.free.last() as int].generation + 1
        } else {
            0
        }
    }

    /// The state after one allocation.
    pub open spec fn allocate(self) -> AllocatorState {
        let entry = AllocatorEntry { is_live: true, generation: self.next_generation() as u64 };
        if self.reuses() {
            AllocatorState {
                slots: self.slots.update(self.next_slot(), entry),
                free: self.free.drop_last(),
            }
        } else {
            AllocatorState { slots: self.slots.push(entry), free: self.free }
        }
    }

    /// The state after freeing `slot`: a live slot is marked free and goes on
    /// top of the free stack with its generation unchanged; anything else
    /// leaves the state as it is.
    pub open spec fn deallocate(self, slot: usize) -> AllocatorState {
        if self.is_live(slot) {
            let entry = AllocatorEntry {
                is_live: false,
                generation: self.slots[slot as int].generation,
            };
            AllocatorState {
                slots: self.slots.update(slot as int, entry),
                free: self.free.push(slot),
            }
        } else {
            self
        }
    }

    /// The state after `count` allocations in a row.
    pub open spec fn allocate_n(self, count: nat) -> AllocatorState
        decreases count,
    {
        if count == 0 {
            self
        } else {
            self.allocate_n((count - 1) as nat).allocate()
        }
    }

    /// The slots that are handed out.
    pub open spec fn live_slots(self) -> Set<usize> {
        Set::new(|slot: usize| self.is_live(slot))
    }

    /// Allocation keeps the state well formed, and the slot it hands out was
    /// not live before and is live afterwards.
    pub proof fn lemma_allocate_wf(self)
        requires
            self.wf(),
        ensures
            self.allocate().wf(),
            0 <= self.next_slot() <= usize::MAX ==> !self.is_live(self.next_slot() as usize),
            0 <= self.next_slot() < self.allocate().slots.len(),
            self.allocate().slots[self.next_slot()].is_live,
    {
        let after = self.allocate();
        assert forall|s: usize| s < after.slots.len() implies (#[trigger] after.slots[s as int]).is_live
            == !after.free.contains(s) by {
            // a free slot other than the one taken off the stack is still on it
            if self.reuses() && s != self.free.last() && self.free.contains(s) {
                let k = choose|k: int| 0 <= k < self.free.len() && self.free[k] == s;
                assert(after.free[k] == s);
            }
        }
    }

    /// Freeing keeps the state well formed.
    pub proof fn lemma_deallocate_wf(self, slot: usize)
        requires
            self.wf(),
        ensures
            self.deallocate(slot).wf(),
    {
        let after = self.deallocate(slot);
        if self.is_live(slot) {
            assert forall|s: usize| s < after.slots.len() implies (#[trigger] after.slots[s as int]).is_live
                == !after.free.contains(s) by {
                if s == slot {
                    assert(after.free.last() == s);
                } else if self.free.contains(s) {
                    // what was on the stack stays where it was
                    let k = choose|k: int| 0 <= k < self.free.len() && self.free[k] == s;
                    assert(after.free[k] == s);
                }
            }
        }
    }

    /// Allocation adds exactly one slot to those handed out: the one it
    /// returns, which was not among them.
    pub proof fn lemma_allocate_live_slots(self)
        requires
            self.wf(),
            self.next_slot() <= usize::MAX,
        ensures
            !self.live_slots().contains(self.next_slot() as usize),
            self.allocate().live_slots() == self.live_slots().insert(self.next_slot() as usize),
    {
        self.lemma_allocate_wf();
        assert(self.allocate().live_slots() =~= self.live_slots().insert(
            self.next_slot() as usize,
        ));
    }

    /// Freeing takes exactly the freed slot out of those handed out.
    pub proof fn lemma_deallocate_live_slots(self, slot: usize)
        ensures
            self.deallocate(slot).live_slots() == self.live_slots().remove(slot),
    {
        assert(self.deallocate(slot).live_slots() =~= self.live_slots().remove(slot));
    }

    /// While nothing is freed, allocations take new slots one after the
    /// other, each in generation zero: with no slot free, the allocation
    /// that follows `count` others returns the slot `count` behind the
    /// existing ones. It may always be made.
    pub proof fn lemma_allocations_without_free(self, count: nat)
        requires
            self.wf(),
            !self.reuses(),
        ensures
            self.allocate_n(count).wf(),
            !self.allocate_n(count).reuses(),
            self.allocate_n(count).can_allocate(),
            self.allocate_n(count).next_slot() == self.slots.len() + count,
            self.allocate_n(count).next_generation() == 0,
        decreases count,
    {
        if count > 0 {
            let before = self.allocate_n((count - 1) as nat);
            self.lemma_allocations_without_free((count - 1) as nat);
            before.lemma_allocate_wf();
        }
    }

    /// Counted from a new allocator, the allocations return the slots
    /// 0, 1, 2 and so on, each in generation zero.
    pub proof fn lemma_first_allocations(count: nat)
        ensures
            Self::empty().allocate_n(count).can_allocate(),
            Self::empty().allocate_n(count).next_slot() == count,
            Self::empty().allocate_n(count).next_generation() == 0,
    {
        Self::empty().lemma_allocations_without_free(count);
    }

    /// A slot that was freed is not live, a second attempt to free it is
    /// turned down, and that attempt changes nothing. What `deallocate`
    /// returns is `is_live` of the state it starts from.
    pub proof fn lemma_deallocate_twice(self, slot: usize)
        ensures
            !self.deallocate(slot).is_live(slot),
            self.deallocate(slot).deallocate(slot) == self.deallocate(slot),
    {
    }

    /// The allocation that follows the freeing of a live slot returns that
    /// slot, one generation later. Where the slot was freed through an
    /// identifier of its current generation, this is the generation after
    /// the identifier's.
    pub proof fn lemma_allocate_after_deallocate(self, slot: usize, generation: u64)
        requires
            self.is_live(slot),
        ensures
            self.deallocate(slot).next_slot() == slot,
            self.deallocate(slot).next_generation() == self.slots[slot as int].generation + 1,
            self.deallocate(slot).can_allocate() <==> self.slots[slot as int].generation
                < u64::MAX,
            self.is_current(slot, generation) ==> self.deallocate(slot).next_generation()
                == generation + 1,
    {
        assert(self.deallocate(slot).free.last() == slot);
    }

    /// Two allocations in a row return different slots.
    pub proof fn lemma_consecutive_allocations_differ(self)
        requires
            self.wf(),
        ensures
            self.next_slot() != self.allocate().next_slot(),
    {
        // the slot handed out first is live, and what is on the stack is not
        self.lemma_allocate_wf();
        let after = self.allocate();
        if after.reuses() {
            assert(after.free.contains(after.free.last()));
        }
    }

    /// A slot is handed out in one generation at a time: two identifiers
    /// that are both current and name the same slot agree in the generation.
    pub proof fn lemma_current_generation_is_unique(self, slot: usize, a: u64, b: u64)
        requires
            self.is_current(slot, a),
            self.is_current(slot, b),
        ensures
            a == b,
    {
    }

    /// Allocation leaves every identifier current that was, and freeing
    /// does so for the identifiers of all slots but the freed one.
    pub proof fn lemma_other_identifiers_stay_current(
        self,
        slot: usize,
        generation: u64,
        freed: usize,
    )
        requires
            self.wf(),
            self.is_current(slot, generation),
        ensures
            self.allocate().is_current(slot, generation),
            freed != slot ==> self.deallocate(freed).is_current(slot, generation),
    {
        // a current identifier names a live slot, so not the one to reuse
        if self.reuses() {
            assert(self.free.contains(self.free.last()));
        }
    }

    /// Allocation returns an identifier that was never handed out before:
    /// its slot had not reached its generation. Afterwards the slot has.
    pub proof fn lemma_allocate_returns_new_identifier(self)
        requires
            self.wf(),
            self.can_allocate(),
        ensures
            !self.has_reached(self.next_slot(), self.next_generation()),
            self.allocate().has_reached(self.next_slot(), self.next_generation()),
    {
        self.lemma_allocate_wf();
    }

    /// What a slot has reached it keeps, whatever is allocated or freed.
    pub proof fn lemma_reached_is_kept(self, slot: int, generation: int, freed: usize)
        requires
            self.wf(),
            self.has_reached(slot, generation),
        ensures
            self.can_allocate() ==> self.allocate().has_reached(slot, generation),
            self.deallocate(freed).has_reached(slot, generation),
    {
        self.lemma_allocate_wf();
    }

    /// The generation recorded for a slot never goes down, and only the
    /// reuse of the slot raises it.
    pub proof fn lemma_generations_only_grow(self, slot: usize, freed: usize)
        requires
            self.wf(),
            self.can_allocate(),
            slot < self.slots.len(),
        ensures
            self.deallocate(freed).slots.len() == self.slots.len(),
            self.deallocate(freed).slots[slot as int].generation == self.slots[slot as int].generation,
            self.allocate().slots.len() >= self.slots.len(),
            self.allocate().slots[slot as int].generation >= self.slots[slot as int].generation,
            self.allocate().slots[slot as int].generation > self.slots[slot as int].generation
                <==> self.next_slot() == slot,
    {
        self.lemma_allocate_wf();
    }
}

} // verus!
