//! Whole runs of an allocator: what holds of every sequence of allocations
//! and frees, made in any order from a new allocator on.

use crate::ecs::allocator_state::AllocatorState;
use crate::ecs::generational_index::GenerationalIndex;
use vstd::prelude::*;

verus! {

/// One call made on an allocator.
pub enum Request {
    /// A call of `allocate`.
    Allocate,
    /// A call of `deallocate` with the given identifier.
    Deallocate(GenerationalIndex),
}

/// The state that `request` leaves behind when made in `state`.
pub open spec fn apply(state: AllocatorState, request: Request) -> AllocatorState {
    match request {
        Request::Allocate => state.allocate(),
        Request::Deallocate(id) => state.deallocate(id.index()),
    }
}

/// The state of an allocator that was new and has served `requests`.
pub open spec fn run(requests: Seq<Request>) -> AllocatorState
    decreases requests.len(),
{
    if requests.len() == 0 {
        AllocatorState::empty()
    } else {
        apply(run(requests.drop_last()), requests.last())
    }
}

/// The state in which the request at `position` is made.
pub open spec fn state_before(requests: Seq<Request>, position: int) -> AllocatorState {
    run(requests.take(position))
}

/// Whether every allocation among `requests` is one that `allocate` admits:
/// the generation it hands out fits in 64 bits.
pub open spec fn admitted(requests: Seq<Request>) -> bool {
    forall|position: int|
        0 <= position < requests.len() && requests[position] is Allocate ==> (
        #[trigger] state_before(requests, position)).can_allocate()
}

/// The slot and the generation of the identifier that the allocation at
/// `position` returns.
pub open spec fn issued(requests: Seq<Request>, position: int) -> (int, int) {
    let state = state_before(requests, position);
    (state.next_slot(), state.next_generation())
}

/// The request at `position` turns the state before it into the state before
/// the next request.
pub proof fn lemma_state_after(requests: Seq<Request>, position: int)
    requires
        0 <= position < requests.len(),
    ensures
        state_before(requests, position + 1) == apply(
            state_before(requests, position),
            requests[position],
        ),
{
    let longer = requests.take(position + 1);
    assert(longer.drop_last() =~= requests.take(position));
}

/// Every state of a run is well formed.
pub proof fn lemma_run_wf(requests: Seq<Request>)
    ensures
        run(requests).wf(),
    decreases requests.len(),
{
    if requests.len() > 0 {
        let before = run(requests.drop_last());
        lemma_run_wf(requests.drop_last());
        match requests.last() {
            Request::Allocate => before.lemma_allocate_wf(),
            Request::Deallocate(id) => before.lemma_deallocate_wf(id.index()),
        }
    }
}

/// The slot of an identifier has reached the identifier's generation from
/// the allocation that returned it on, throughout the run.
pub proof fn lemma_issued_stays_reached(requests: Seq<Request>, position: int, later: int)
    requires
        admitted(requests),
        0 <= position < later <= requests.len(),
        requests[position] is Allocate,
    ensures
        state_before(requests, later).has_reached(
            issued(requests, position).0,
            issued(requests, position).1,
        ),
    decreases later - position,
{
    let previous = state_before(requests, later - 1);
    lemma_run_wf(requests.take(later - 1));
    lemma_state_after(requests, later - 1);
    if later == position + 1 {
        previous.lemma_allocate_returns_new_identifier();
    } else {
        lemma_issued_stays_reached(requests, position, later - 1);
        let (slot, generation) = issued(requests, position);
        match requests[later - 1] {
            Request::Allocate => previous.lemma_reached_is_kept(slot, generation, 0),
            Request::Deallocate(id) => previous.lemma_reached_is_kept(slot, generation, id.index()),
        }
    }
}

/// No identifier is handed out twice: whatever was allocated and freed in
/// between, two allocations of one allocator return identifiers that differ
/// in the slot or in the generation.
pub proof fn lemma_no_identifier_is_issued_twice(
    requests: Seq<Request>,
    earlier: int,
    later: int,
)
    requires
        admitted(requests),
        0 <= earlier < later < requests.len(),
        requests[earlier] is Allocate,
        requests[later] is Allocate,
    ensures
        issued(requests, earlier) != issued(requests, later),
{
    lemma_issued_stays_reached(requests, earlier, later);
    lemma_run_wf(requests.take(later));
    state_before(requests, later).lemma_allocate_returns_new_identifier();
}

} // verus!
