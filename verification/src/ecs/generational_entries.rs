//! Values attached to identifiers, one store per kind of value.
//!
//! A store keeps, per slot, the value set last together with the generation
//! of the identifier it was set under. A lookup answers only to an
//! identifier of that same generation, so the store needs no word from the
//! allocator to keep a stale identifier from reaching a newer value.

use crate::ecs::generational_index::GenerationalIndex;
use vstd::prelude::*;

verus! {

/// A store as a mathematical value: per slot, nothing or the value set last
/// with the generation it was set under.
#[verifier::ext_equal]
pub struct EntriesState<T> {
    pub slots: Seq<Option<(T, u64)>>,
}

impl<T> EntriesState<T> {
    /// The state of a store that nothing was set in yet.
    pub open spec fn empty() -> EntriesState<T> {
        EntriesState { slots: Seq::empty() }
    }

    /// How many slots the store covers.
    pub open spec fn len(self) -> nat {
        self.slots.len()
    }

    /// Whether `set` accepts `id`: its slot is covered already or is the
    /// first one behind those that are.
    pub open spec fn accepts(self, id: GenerationalIndex) -> bool {
        id.index() <= self.len()
    }

    /// The generation under which the value in `slot` was set, where the
    /// slot holds one.
    pub open spec fn generation_at(self, slot: usize) -> Option<u64> {
        if slot < self.len() {
            match self.slots[slot as int] {
                Some((_, generation)) => Some(generation),
                None => None,
            }
        } else {
            None
        }
    }

    /// What a lookup of `id` finds: the value in the slot of `id`, provided
    /// the slot is covered, holds a value, and holds it under the generation
    /// of `id`.
    pub open spec fn get(self, id: GenerationalIndex) -> Option<T> {
        if id.index() < self.len() {
            match self.slots[id.index() as int] {
                Some((value, generation)) => if generation == id.generation() {
                    Some(value)
                } else {
                    None
                },
                None => None,
            }
        } else {
            None
        }
    }

    /// The state after setting `value` under `id`: the slot of `id` holds
    /// `value` and the generation of `id`, whatever it held before; a slot
    /// that is not covered yet is added at the end.
    pub open spec fn set(self, id: GenerationalIndex, value: T) -> EntriesState<T> {
        let entry = Some((value, id.generation()));
        if id.index() < self.len() {
            EntriesState { slots: self.slots.update(id.index() as int, entry) }
        } else {
            EntriesState { slots: self.slots.push(entry) }
        }
    }

    /// A lookup finds a value exactly where the slot holds one under the
    /// generation of the identifier.
    pub proof fn lemma_get_by_generation(self, id: GenerationalIndex)
        ensures
            self.get(id) is Some <==> self.generation_at(id.index()) == Some(id.generation()),
    {
    }

    /// A value that was set is found under the identifier it was set with.
    pub proof fn lemma_set_then_get(self, id: GenerationalIndex, value: T)
        requires
            self.accepts(id),
        ensures
            self.set(id, value).get(id) == Some(value),
    {
    }

    /// Setting a value leaves every other slot as it was.
    pub proof fn lemma_set_keeps_other_slots(
        self,
        id: GenerationalIndex,
        value: T,
        other: GenerationalIndex,
    )
        requires
            self.accepts(id),
            other.index() != id.index(),
        ensures
            self.set(id, value).get(other) == self.get(other),
    {
    }

    /// Setting a value replaces what the slot held: afterwards no identifier
    /// of the same slot and another generation finds anything.
    pub proof fn lemma_set_hides_other_generations(
        self,
        id: GenerationalIndex,
        value: T,
        other: GenerationalIndex,
    )
        requires
            other.index() == id.index(),
            other.generation() != id.generation(),
        ensures
            self.set(id, value).get(other) is None,
    {
    }

    /// Of two identifiers that name one slot in different generations, a
    /// store answers to one at most.
    pub proof fn lemma_one_generation_per_slot(self, a: GenerationalIndex, b: GenerationalIndex)
        requires
            a.index() == b.index(),
            a.generation() != b.generation(),
        ensures
            !(self.get(a) is Some && self.get(b) is Some),
    {
    }
}

struct GenerationalEntry<T> {
    value: T,
    generation: u64,
}

/// Associates values of one type with identifiers.
pub struct GenerationalEntries<T>(Vec<Option<GenerationalEntry<T>>>);

impl<T> View for GenerationalEntries<T> {
    type V = EntriesState<T>;

    closed spec fn view(&self) -> EntriesState<T> {
        EntriesState {
            slots: Seq::new(
                self.0@.len(),
                |i: int|
                    match self.0@[i] {
                        Some(entry) => Some((entry.value, entry.generation)),
                        None => None,
                    },
            ),
        }
    }
}

impl<T> Default for GenerationalEntries<T> {
    /// A store that holds nothing.
    fn default() -> (entries: Self)
        ensures
            entries@ == EntriesState::<T>::empty(),
    {
        GenerationalEntries(Vec::new())
    }
}

impl<T> GenerationalEntries<T> {
    /// The number of slots the store covers.
    pub fn len(&self) -> (len: usize)
        ensures
            len == self@.len(),
    {
        self.0.len()
    }

    /// Attaches `value` to `id`, in place of whatever the slot of `id` held.
    /// The slot must be covered already or be the next one to cover.
    pub fn set(&mut self, id: GenerationalIndex, value: T)
        requires
            old(self)@.accepts(id),
        ensures
            final(self)@ == old(self)@.set(id, value),
            final(self)@.get(id) == Some(value),
    {
        let index: usize = id.index();
        let new_entry = Some(GenerationalEntry { value, generation: id.generation() });
        if index < self.0.len() {
            self.0[index] = new_entry;
        } else {
            self.0.push(new_entry);
        }
    }

    /// Looks up the value attached to `id`. There is none where the slot of
    /// `id` is not covered, holds nothing, or holds a value that was set
    /// under another generation.
    pub fn get(&self, id: GenerationalIndex) -> (value: Option<&T>)
        ensures
            (match value {
                Some(found) => self@.get(id) == Some(*found),
                None => self@.get(id) is None,
            }),
    {
        let index: usize = id.index();
        if index >= self.0.len() {
            return None;
        }
        match &self.0[index] {
            Some(entry) => if entry.generation == id.generation() {
                Some(&entry.value)
            } else {
                None
            },
            None => None,
        }
    }

    /// Looks up the value attached to `id` for writing, on the terms of
    /// `get`. What the caller leaves in the reference is the value attached
    /// to `id` afterwards; nothing else in the store changes.
    pub fn get_mut(&mut self, id: GenerationalIndex) -> (value: Option<&mut T>)
        ensures
            (match value {
                Some(found) => old(self)@.get(id) == Some(*found) && final(self)@ == old(self)@.set(
                    id,
                    *final(found),
                ),
                None => old(self)@.get(id) is None && final(self)@ == old(self)@,
            }),
    {
        let index: usize = id.index();
        if index >= self.0.len() {
            return None;
        }
        match &mut self.0[index] {
            Some(entry) => if entry.generation == id.generation() {
                Some(&mut entry.value)
            } else {
                None
            },
            None => None,
        }
    }
}

} // verus!
