//! What the reuse of a slot means for the identifiers that name it and for
//! the stores that are keyed by them.
//!
//! A store is not told when a slot is freed: it keeps what it holds until a
//! value is set in the slot again. The lemmas here say what a store then
//! answers to a retired identifier and to the one that took its place, for
//! stores of any content and for stores that are kept up with the allocator.

use crate::ecs::allocator_state::AllocatorState;
use crate::ecs::generational_entries::EntriesState;
use crate::ecs::generational_index::GenerationalIndex;
use vstd::prelude::*;

verus! {

/// Whether `id` is the identifier that the next allocation returns.
pub open spec fn allocates(allocator: AllocatorState, id: GenerationalIndex) -> bool {
    &&& allocator.can_allocate()
    &&& id.index() == allocator.next_slot()
    &&& id.generation() == allocator.next_generation()
}

/// Whether `reissued` is the identifier that an allocator in state
/// `allocator` returns when the slot of `retired` is freed and the next
/// allocation is made, `retired` being current in that state.
pub open spec fn reissues(
    allocator: AllocatorState,
    retired: GenerationalIndex,
    reissued: GenerationalIndex,
) -> bool {
    &&& allocator.is_current(retired.index(), retired.generation())
    &&& allocates(allocator.deallocate(retired.index()), reissued)
}

/// Whether a store covers exactly the slots that the allocator has made.
pub open spec fn in_step<T>(allocator: AllocatorState, entries: EntriesState<T>) -> bool {
    entries.len() == allocator.slots.len()
}

/// Whether a store is kept up with the allocator: it is in step, and every
/// live slot holds a value that was set under the identifier that is current
/// for the slot. This is so where every identifier gets its value as soon as
/// it is allocated.
pub open spec fn kept_up<T>(allocator: AllocatorState, entries: EntriesState<T>) -> bool {
    &&& in_step(allocator, entries)
    &&& forall|slot: usize| #[trigger]
        allocator.is_live(slot) ==> entries.generation_at(slot) == Some(
            allocator.slots[slot as int].generation,
        )
}

/// Two identifiers that are allocated one after the other name different
/// slots, and so are different.
pub proof fn lemma_consecutive_identifiers_differ(
    allocator: AllocatorState,
    first: GenerationalIndex,
    second: GenerationalIndex,
)
    requires
        allocator.wf(),
        first.index() == allocator.next_slot(),
        second.index() == allocator.allocate().next_slot(),
    ensures
        first.index() != second.index(),
        first != second,
{
    allocator.lemma_consecutive_allocations_differ();
}

/// The identifier that takes the place of a retired one names the same slot
/// in the next generation. The two are different, and the retired one is
/// not current any more.
pub proof fn lemma_reissued_identifier(
    allocator: AllocatorState,
    retired: GenerationalIndex,
    reissued: GenerationalIndex,
)
    requires
        reissues(allocator, retired, reissued),
    ensures
        reissued.index() == retired.index(),
        reissued.generation() == retired.generation() + 1,
        reissued != retired,
        !allocator.deallocate(retired.index()).allocate().is_current(
            retired.index(),
            retired.generation(),
        ),
{
    allocator.lemma_allocate_after_deallocate(retired.index(), retired.generation());
}

/// Once its slot is reused, a retired identifier finds nothing in a store,
/// unless the slot of the store holds, to this moment, a value that was set
/// under the generation of that identifier.
pub proof fn lemma_retired_identifier_finds_nothing<T>(
    allocator: AllocatorState,
    retired: GenerationalIndex,
    reissued: GenerationalIndex,
    entries: EntriesState<T>,
)
    requires
        reissues(allocator, retired, reissued),
        entries.generation_at(retired.index()) != Some(retired.generation()),
    ensures
        entries.get(retired) is None,
{
}

/// A store never answers to both the retired identifier and the one that
/// took its place: what was set under the one is not found under the other.
pub proof fn lemma_reuse_separates_values<T>(
    allocator: AllocatorState,
    retired: GenerationalIndex,
    reissued: GenerationalIndex,
    entries: EntriesState<T>,
)
    requires
        reissues(allocator, retired, reissued),
    ensures
        entries.get(retired) is Some ==> entries.get(reissued) is None,
        entries.get(reissued) is Some ==> entries.get(retired) is None,
{
    lemma_reissued_identifier(allocator, retired, reissued);
    entries.lemma_one_generation_per_slot(retired, reissued);
}

/// From the moment a value is set under the identifier that took its place,
/// the retired identifier finds nothing, in any store.
pub proof fn lemma_reissued_value_hides_retired<T>(
    allocator: AllocatorState,
    retired: GenerationalIndex,
    reissued: GenerationalIndex,
    entries: EntriesState<T>,
    value: T,
)
    requires
        reissues(allocator, retired, reissued),
    ensures
        entries.set(reissued, value).get(retired) is None,
        entries.accepts(reissued) ==> entries.set(reissued, value).get(reissued) == Some(value),
{
    lemma_reissued_identifier(allocator, retired, reissued);
    entries.lemma_set_hides_other_generations(reissued, value, retired);
}

/// A store that is in step with the allocator accepts the identifier that
/// the allocator returns next, and is in step again once a value is set
/// under it. Freeing does not bring the two out of step.
pub proof fn lemma_store_in_step_accepts<T>(
    allocator: AllocatorState,
    entries: EntriesState<T>,
    id: GenerationalIndex,
    value: T,
    freed: usize,
)
    requires
        allocator.wf(),
        in_step(allocator, entries),
        id.index() == allocator.next_slot(),
    ensures
        entries.accepts(id),
        in_step(allocator.allocate(), entries.set(id, value)),
        in_step(allocator.deallocate(freed), entries),
{
    allocator.lemma_allocate_wf();
}

/// A store stays kept up when the next identifier is allocated and a value
/// is set under it.
pub proof fn lemma_allocate_and_set_keep_up<T>(
    allocator: AllocatorState,
    entries: EntriesState<T>,
    id: GenerationalIndex,
    value: T,
)
    requires
        allocator.wf(),
        kept_up(allocator, entries),
        allocates(allocator, id),
    ensures
        entries.accepts(id),
        kept_up(allocator.allocate(), entries.set(id, value)),
{
    allocator.lemma_allocate_wf();
    let allocated = allocator.allocate();
    let written = entries.set(id, value);
    assert forall|slot: usize| #[trigger] allocated.is_live(slot) implies written.generation_at(
        slot,
    ) == Some(allocated.slots[slot as int].generation) by {
        if slot != id.index() {
            assert(allocator.is_live(slot));
        }
    }
}

/// A store stays kept up when a value is set anew under an identifier that
/// is current, and when a slot is freed.
pub proof fn lemma_set_and_deallocate_keep_up<T>(
    allocator: AllocatorState,
    entries: EntriesState<T>,
    id: GenerationalIndex,
    value: T,
    freed: usize,
)
    requires
        kept_up(allocator, entries),
    ensures
        allocator.is_current(id.index(), id.generation()) ==> kept_up(
            allocator,
            entries.set(id, value),
        ),
        kept_up(allocator.deallocate(freed), entries),
{
    if allocator.is_current(id.index(), id.generation()) {
        let written = entries.set(id, value);
        assert forall|slot: usize| #[trigger] allocator.is_live(slot) implies written.generation_at(
            slot,
        ) == Some(allocator.slots[slot as int].generation) by {}
    }
    let after = allocator.deallocate(freed);
    assert forall|slot: usize| #[trigger] after.is_live(slot) implies entries.generation_at(slot)
        == Some(after.slots[slot as int].generation) by {
        assert(allocator.is_live(slot));
    }
}

/// In a store that is kept up, a live slot answers to the identifier that is
/// current for it and to no other. So an identifier whose slot was freed and
/// is in use again finds nothing.
pub proof fn lemma_kept_up_answers_current<T>(
    allocator: AllocatorState,
    entries: EntriesState<T>,
    id: GenerationalIndex,
)
    requires
        kept_up(allocator, entries),
        allocator.is_live(id.index()),
    ensures
        entries.get(id) is Some <==> allocator.is_current(id.index(), id.generation()),
{
}

/// Freeing a slot, allocating it again and setting a value under the new
/// identifier leaves a store that was kept up with nothing for the retired
/// identifier, and with the value for the new one.
pub proof fn lemma_reuse_in_kept_up_store<T>(
    allocator: AllocatorState,
    retired: GenerationalIndex,
    reissued: GenerationalIndex,
    entries: EntriesState<T>,
    value: T,
)
    requires
        allocator.wf(),
        kept_up(allocator, entries),
        reissues(allocator, retired, reissued),
    ensures
        kept_up(
            allocator.deallocate(retired.index()).allocate(),
            entries.set(reissued, value),
        ),
        entries.set(reissued, value).get(retired) is None,
        entries.set(reissued, value).get(reissued) == Some(value),
{
    let freed = allocator.deallocate(retired.index());
    allocator.lemma_deallocate_wf(retired.index());
    lemma_set_and_deallocate_keep_up(allocator, entries, retired, value, retired.index());
    lemma_allocate_and_set_keep_up(freed, entries, reissued, value);
    lemma_reissued_value_hides_retired(allocator, retired, reissued, entries, value);
}

} // verus!
