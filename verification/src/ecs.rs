//! The identifier space and the component stores that are keyed by it.

pub mod allocator_state;
pub mod generational_entries;
pub mod generational_index;
pub mod history;
pub mod lifecycle;
