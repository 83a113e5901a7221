//! The mathematical model of the broker: what one resource's gate, waiter
//! registry and ticket counter hold, and the steps that change them.

use crate::resource::ResourceId;
use std::task::Waker;
use vstd::prelude::*;

verus! {

/// What the broker holds for one resource.
pub struct SlotView<H> {
    /// The handle in the resource's gate; `None` while that gate is closed.
    pub gate: Option<H>,
    /// The continuations that parked since the last checkpoint, first
    /// arrival first.
    pub parked: Seq<Waker>,
    /// The tickets of the current checkpoint that are not yet retired.
    pub outstanding: nat,
}

impl<H> SlotView<H> {
    /// A resource that nobody has touched: its gate is closed, nobody is
    /// parked, no ticket is out.
    pub open spec fn idle() -> Self {
        SlotView { gate: None, parked: Seq::empty(), outstanding: 0 }
    }

    /// No ticket is out unless a checkpoint window is open.
    pub open spec fn settled(self) -> bool {
        self.gate is None ==> self.outstanding == 0
    }

    /// A continuation parks behind the others.
    pub open spec fn park(self, waker: Waker) -> Self {
        SlotView { parked: self.parked.push(waker), ..self }
    }

    /// A checkpoint opens: the handle is installed, everybody who is parked
    /// is taken out, and each of them gets a ticket. What was left of an
    /// earlier window is gone.
    pub open spec fn open(self, handle: H) -> Self {
        SlotView { gate: Some(handle), parked: Seq::empty(), outstanding: self.parked.len() }
    }

    /// A task has run at the open gate and left `handle` behind: one ticket
    /// is retired.
    pub open spec fn complete(self, handle: H) -> Self {
        SlotView { gate: Some(handle), outstanding: tickets_after(self.outstanding, 1), ..self }
    }

    /// The checkpoint closes: the handle is taken out.
    pub open spec fn close(self) -> Self {
        SlotView { gate: None, ..self }
    }
}

/// The tickets that are still out when `released` of `issued` tickets have
/// been retired. Retiring more than were issued leaves none.
pub open spec fn tickets_after(issued: nat, released: nat) -> nat {
    if released >= issued {
        0
    } else {
        (issued - released) as nat
    }
}

/// The state of a whole broker: one slot for each registered resource.
pub type BrokerView<H> = Map<ResourceId, SlotView<H>>;

/// The broker after `id` has been registered: an unknown resource gets an
/// idle slot, a known one keeps what it has.
pub open spec fn step_register<H>(state: BrokerView<H>, id: ResourceId) -> BrokerView<H> {
    if state.dom().contains(id) {
        state
    } else {
        state.insert(id, SlotView::idle())
    }
}

/// The broker after a continuation has parked for `id`.
pub open spec fn step_park<H>(state: BrokerView<H>, id: ResourceId, waker: Waker) -> BrokerView<
    H,
> {
    state.insert(id, state[id].park(waker))
}

/// The broker after a checkpoint of `id` has opened with `handle`. The
/// resource is registered on the way if it was not.
pub open spec fn step_open<H>(state: BrokerView<H>, id: ResourceId, handle: H) -> BrokerView<H> {
    state.insert(id, step_register(state, id)[id].open(handle))
}

/// The broker after a task has run at the open gate of `id` and left `handle`
/// behind.
pub open spec fn step_complete<H>(state: BrokerView<H>, id: ResourceId, handle: H) -> BrokerView<
    H,
> {
    state.insert(id, state[id].complete(handle))
}

/// The broker after the checkpoint of `id` has closed.
pub open spec fn step_close<H>(state: BrokerView<H>, id: ResourceId) -> BrokerView<H> {
    state.insert(id, state[id].close())
}

} // verus!
