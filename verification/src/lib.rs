//! Generational-index storage for entities and their components.
//!
//! An allocator hands out identifiers over a dense, reusable space of slots,
//! and typed stores attach one value per identifier. Every identifier carries
//! the generation of its slot, so an identifier that outlived its slot is
//! told apart from the slot's next occupant.
//!
//! The executable types are `GenerationalIndexAllocator` and
//! `GenerationalEntries`, in `ecs::generational_index` and
//! `ecs::generational_entries`. Their contracts are stated over the
//! mathematical values `AllocatorState` and `EntriesState`; the lemmas about
//! these stand with them, and in `ecs::lifecycle` and `ecs::history` where
//! they concern both or whole runs.
//!
//! Two functions have a precondition. `GenerationalIndexAllocator::allocate`
//! asks that the generation it hands out fits in 64 bits, which
//! `can_allocate` tells. `GenerationalEntries::set` asks that the slot of the
//! identifier is covered by the store or is the next one to cover, which a
//! comparison with `len` tells. Code that is not verified has to make these
//! tests itself before it calls.

pub mod ecs;
