//! One resource's gate, waiter registry and ticket counter, and the steps of
//! the access future and of the checkpoint driver on them.

use crate::access::AccessPoll;
use crate::checkpoint::CheckpointWindow;
use crate::gate::AccessGate;
use crate::model::SlotView;
use crate::resource::ResourceId;
use crate::tickets::AsyncEcsCounter;
use crate::waiters::WaiterRegistry;
use std::task::Waker;
use vstd::prelude::*;

verus! {

/// The broker's state for one resource.
pub struct ResourceSlot<H> {
    id: ResourceId,
    gate: AccessGate<H>,
    waiters: WaiterRegistry,
    tickets: AsyncEcsCounter,
}

impl<H> View for ResourceSlot<H> {
    type V = SlotView<H>;

    /// What the three parts of the slot hold.
    closed spec fn view(&self) -> SlotView<H> {
        SlotView {
            gate: self.gate@,
            parked: self.waiters@,
            outstanding: self.tickets.outstanding(),
        }
    }
}

impl<H> ResourceSlot<H> {
    /// The resource that this slot belongs to.
    pub closed spec fn id(&self) -> ResourceId {
        self.id
    }

    /// An idle slot for `id`.
    pub fn new(id: ResourceId) -> (slot: Self)
        ensures
            slot.id() == id,
            slot@ == SlotView::<H>::idle(),
    {
        ResourceSlot {
            id,
            gate: AccessGate::new(),
            waiters: WaiterRegistry::new(),
            tickets: AsyncEcsCounter::new(),
        }
    }

    /// The resource that this slot belongs to.
    pub fn resource_id(&self) -> (id: ResourceId)
        ensures
            id == self.id(),
    {
        self.id
    }

    /// Whether a checkpoint window is open.
    pub fn is_open(&self) -> (open: bool)
        ensures
            open == (self@.gate is Some),
    {
        self.gate.is_open()
    }

    /// The number of continuations that are parked for the next checkpoint.
    pub fn parked(&self) -> (n: usize)
        ensures
            n == self@.parked.len(),
    {
        self.waiters.len()
    }

    /// The number of tickets of the current checkpoint that are still out.
    pub fn outstanding(&self) -> (n: usize)
        ensures
            n == self@.outstanding,
    {
        self.tickets.count()
    }

    /// One poll of an access request.
    ///
    /// In an open window the task runs at once against the handle, and when
    /// it has returned, with all that it did to the resource, one ticket of
    /// the checkpoint is retired. Outside of a window the caller's waker is
    /// parked and the task comes back unrun. Every poll looks anew whether a
    /// window is open, so a wake-up outside of one only parks the caller
    /// again.
    pub fn poll_access<Out, F: FnOnce(&mut H) -> Out>(&mut self, task: F, waker: Waker) -> (poll:
        AccessPoll<Out, F>)
        requires
            forall|h: &mut H| old(self)@.gate == Some(*h) ==> call_requires(task, (h,)),
        ensures
            final(self).id() == old(self).id(),
            old(self)@.gate is None ==> poll == AccessPoll::<Out, F>::Pending(task),
            old(self)@.gate is None ==> final(self)@ == old(self)@.park(waker),
            old(self)@.gate is Some ==> poll is Ready,
            old(self)@.gate is Some ==> exists|h: &mut H|
                *h == old(self)@.gate->0 && #[trigger] call_ensures(task, (h,), poll->Ready_0)
                    && final(self)@ == old(self)@.complete(*final(h)),
    {
        if self.gate.is_open() {
            let out = self.gate.run(task);
            self.tickets.release_one();
            let poll = AccessPoll::Ready(out);
            proof {
                let h = choose|h: &mut H|
                    *h == old(self)@.gate->0 && self.gate@ == Some(*final(h))
                        && #[trigger] call_ensures(task, (h,), out);
                assert(self@ == old(self)@.complete(*final(h)));
                assert(call_ensures(task, (h,), poll->Ready_0));
            }
            poll
        } else {
            self.waiters.register(waker);
            AccessPoll::Pending(task)
        }
    }

    /// Opens a checkpoint: installs `handle`, drains the waiter registry and
    /// issues one ticket for each drained waiter. The window that comes back
    /// holds the drained wakers and, unless nobody was parked, the barrier to
    /// wait on.
    ///
    /// A window that was still open is replaced: its handle and the tickets
    /// that were left of it are discarded.
    pub fn open_checkpoint(&mut self, handle: H) -> (window: CheckpointWindow)
        ensures
            final(self).id() == old(self).id(),
            final(self)@ == old(self)@.open(handle),
            window.wakers() == old(self)@.parked,
            window.barrier() is Some <==> old(self)@.parked.len() > 0,
    {
        self.gate.open(handle);
        let wakers = self.waiters.drain();
        let barrier = self.tickets.reset(wakers.len());
        CheckpointWindow::new(wakers, barrier)
    }

    /// Closes the checkpoint and hands the resource's handle back, as the
    /// last task left it.
    pub fn close_checkpoint(&mut self) -> (handle: H)
        requires
            old(self)@.gate is Some,
            old(self)@.outstanding == 0,
        ensures
            final(self).id() == old(self).id(),
            final(self)@ == old(self)@.close(),
            old(self)@.gate == Some(handle),
    {
        self.gate.close()
    }
}

} // verus!
