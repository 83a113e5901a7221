//! What holds of every run of the broker, proved from the model of its steps.

use crate::model::{
    step_close, step_complete, step_open, step_park, step_register, tickets_after, BrokerView,
    SlotView,
};
use crate::resource::ResourceId;
use std::task::Waker;
use vstd::prelude::*;

verus! {

/// The broker after the continuations of `wakers` have parked for `id`, one
/// after the other.
pub open spec fn park_all<H>(
    state: BrokerView<H>,
    id: ResourceId,
    wakers: Seq<Waker>,
) -> BrokerView<H>
    decreases wakers.len(),
{
    if wakers.len() == 0 {
        state
    } else {
        step_park(park_all(state, id, wakers.drop_last()), id, wakers.last())
    }
}

/// The broker after one task for each handle of `handles` has run at the open
/// gate of `id`, each leaving its handle behind.
pub open spec fn complete_all<H>(
    state: BrokerView<H>,
    id: ResourceId,
    handles: Seq<H>,
) -> BrokerView<H>
    decreases handles.len(),
{
    if handles.len() == 0 {
        state
    } else {
        step_complete(complete_all(state, id, handles.drop_last()), id, handles.last())
    }
}

/// Parking changes nothing of a resource but its list of waiters, to which
/// the newcomers are added in the order in which they came.
pub proof fn lemma_park_all<H>(state: BrokerView<H>, id: ResourceId, wakers: Seq<Waker>)
    requires
        state.dom().contains(id),
    ensures
        park_all(state, id, wakers).dom() == state.dom(),
        park_all(state, id, wakers)[id].gate == state[id].gate,
        park_all(state, id, wakers)[id].outstanding == state[id].outstanding,
        park_all(state, id, wakers)[id].parked == state[id].parked + wakers,
    decreases wakers.len(),
{
    if wakers.len() == 0 {
        assert(state[id].parked + wakers =~= state[id].parked);
    } else {
        lemma_park_all(state, id, wakers.drop_last());
        let before = park_all(state, id, wakers.drop_last());
        assert(before.insert(id, before[id].park(wakers.last())).dom() =~= state.dom());
        assert((state[id].parked + wakers.drop_last()).push(wakers.last()) =~= state[id].parked
            + wakers);
    }
}

/// Completions change nothing of a resource but the handle in its gate and
/// its tickets, of which each completion retires one until none is left.
pub proof fn lemma_complete_all<H>(state: BrokerView<H>, id: ResourceId, handles: Seq<H>)
    requires
        state.dom().contains(id),
    ensures
        complete_all(state, id, handles).dom() == state.dom(),
        complete_all(state, id, handles)[id].parked == state[id].parked,
        complete_all(state, id, handles)[id].outstanding == tickets_after(
            state[id].outstanding,
            handles.len(),
        ),
        handles.len() > 0 ==> complete_all(state, id, handles)[id].gate == Some(handles.last()),
        handles.len() == 0 ==> complete_all(state, id, handles)[id].gate == state[id].gate,
    decreases handles.len(),
{
    if handles.len() > 0 {
        lemma_complete_all(state, id, handles.drop_last());
        let before = complete_all(state, id, handles.drop_last());
        assert(before.insert(id, before[id].complete(handles.last())).dom() =~= state.dom());
    }
}

/// A checkpoint drains exactly those who asked since the last one, and waits
/// for exactly as many completions.
///
/// When tasks have asked for `id` while its gate was closed, the checkpoint
/// that opens next takes out the waiters that were already parked and, behind
/// them, one for each of those tasks in the order in which they came. It
/// issues one ticket for each waiter it took out and leaves nobody parked, so
/// that no waiter is carried over to the checkpoint after it. The tickets are
/// all retired, and the driver may close, when that many tasks have completed
/// and not before.
pub proof fn law_checkpoint_drains_what_was_requested<H>(
    state: BrokerView<H>,
    id: ResourceId,
    wakers: Seq<Waker>,
    handle: H,
    handles: Seq<H>,
)
    requires
        state.dom().contains(id),
        state[id].gate is None,
    ensures
        ({
            let requested = park_all(state, id, wakers);
            let open = step_open(requested, id, handle);
            let done = complete_all(open, id, handles);
            &&& requested[id].parked == state[id].parked + wakers
            &&& open[id].outstanding == state[id].parked.len() + wakers.len()
            &&& open[id].parked == Seq::<Waker>::empty()
            &&& done[id].outstanding == tickets_after(open[id].outstanding, handles.len())
            &&& done[id].outstanding == 0 <==> handles.len() >= state[id].parked.len()
                + wakers.len()
        }),
{
    lemma_park_all(state, id, wakers);
    let open = step_open(park_all(state, id, wakers), id, handle);
    lemma_complete_all(open, id, handles);
}

/// A checkpoint whose waiters all run ends idle.
///
/// When every waiter that the checkpoint took out has completed, no ticket is
/// out, the checkpoint may close, and once it has closed the resource is as
/// if nobody had ever asked for it: no waiter and no ticket of this
/// checkpoint is left to hold up a later one. A request that was given up
/// before it ever parked is not among the waiters and changes none of this.
pub proof fn law_checkpoint_ends_idle_when_every_waiter_has_run<H>(
    state: BrokerView<H>,
    id: ResourceId,
    wakers: Seq<Waker>,
    handle: H,
    handles: Seq<H>,
)
    requires
        state.dom().contains(id),
        state[id].gate is None,
        handles.len() == state[id].parked.len() + wakers.len(),
    ensures
        ({
            let open = step_open(park_all(state, id, wakers), id, handle);
            let done = complete_all(open, id, handles);
            &&& done[id].gate is Some
            &&& done[id].outstanding == 0
            &&& step_close(done, id)[id] == SlotView::<H>::idle()
        }),
{
    lemma_park_all(state, id, wakers);
    let open = step_open(park_all(state, id, wakers), id, handle);
    lemma_complete_all(open, id, handles);
}

/// A ticket that is never retired keeps the barrier up: while fewer tasks
/// have completed than the checkpoint issued tickets, some ticket is out, and
/// as soon as that many have completed, none is. A waiter that is woken and
/// then never runs therefore holds its checkpoint open for good.
pub proof fn law_unretired_ticket_keeps_the_barrier_up(issued: nat, released: nat)
    ensures
        tickets_after(issued, released) == 0 <==> released >= issued,
        released < issued ==> tickets_after(issued, released) == issued - released,
        tickets_after(issued, released + 1) == tickets_after(tickets_after(issued, released), 1),
{
}

/// No step for one resource touches another: whatever is done for `a`, the
/// gate, the waiters and the tickets of `b` stay as they are, and `b` stays
/// registered or unregistered as it was.
pub proof fn law_resources_are_isolated<H>(
    state: BrokerView<H>,
    a: ResourceId,
    b: ResourceId,
    waker: Waker,
    handle: H,
)
    requires
        a != b,
    ensures
        step_register(state, a).dom().contains(b) == state.dom().contains(b),
        step_park(state, a, waker).dom().contains(b) == state.dom().contains(b),
        step_open(state, a, handle).dom().contains(b) == state.dom().contains(b),
        step_complete(state, a, handle).dom().contains(b) == state.dom().contains(b),
        step_close(state, a).dom().contains(b) == state.dom().contains(b),
        state.dom().contains(b) ==> step_register(state, a)[b] == state[b],
        state.dom().contains(b) ==> step_park(state, a, waker)[b] == state[b],
        state.dom().contains(b) ==> step_open(state, a, handle)[b] == state[b],
        state.dom().contains(b) ==> step_complete(state, a, handle)[b] == state[b],
        state.dom().contains(b) ==> step_close(state, a)[b] == state[b],
{
}

/// The handle in an open gate changes only when a task has run to its end:
/// registering and parking leave it as it is, and a completion puts in the
/// handle as the task left it and retires one ticket in the same step.
pub proof fn law_handle_changes_only_by_completion<H>(
    state: BrokerView<H>,
    id: ResourceId,
    waker: Waker,
    handle: H,
)
    requires
        state.dom().contains(id),
    ensures
        step_register(state, id)[id].gate == state[id].gate,
        step_park(state, id, waker)[id].gate == state[id].gate,
        step_complete(state, id, handle)[id].gate == Some(handle),
        step_complete(state, id, handle)[id].outstanding == tickets_after(
            state[id].outstanding,
            1,
        ),
        step_close(state, id)[id].gate is None,
{
}

/// Every step keeps a resource settled: once no ticket is out outside of a
/// checkpoint window, that stays so, provided that a checkpoint closes only
/// when all its tickets are retired.
pub proof fn law_steps_keep_slots_settled<H>(
    state: BrokerView<H>,
    id: ResourceId,
    waker: Waker,
    handle: H,
)
    requires
        state.dom().contains(id) ==> state[id].settled(),
    ensures
        step_register(state, id)[id].settled(),
        step_open(state, id, handle)[id].settled(),
        state.dom().contains(id) ==> step_park(state, id, waker)[id].settled(),
        state.dom().contains(id) ==> step_complete(state, id, handle)[id].settled(),
        state.dom().contains(id) && state[id].outstanding == 0 ==> step_close(
            state,
            id,
        )[id].settled(),
{
}

} // verus!
