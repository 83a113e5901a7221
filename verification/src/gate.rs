//! The access gate: a slot that holds the exclusive handle to a resource for
//! the length of a checkpoint window, and nothing outside of one.

use vstd::prelude::*;

verus! {

/// One resource's gate. It is open while it holds a handle and closed
/// otherwise.
pub struct AccessGate<H> {
    handle: Option<H>,
}

impl<H> View for AccessGate<H> {
    type V = Option<H>;

    /// The handle in an open gate; `None` for a closed one.
    closed spec fn view(&self) -> Option<H> {
        self.handle
    }
}

impl<H> AccessGate<H> {
    /// A closed gate.
    pub fn new() -> (gate: Self)
        ensures
            gate@ is None,
    {
        AccessGate { handle: None }
    }

    /// Whether this gate holds a handle.
    pub fn is_open(&self) -> (open: bool)
        ensures
            open == (self@ is Some),
    {
        self.handle.is_some()
    }

    /// Opens this gate by installing `handle`. A handle that was still in
    /// it is discarded.
    pub fn open(&mut self, handle: H)
        ensures
            final(self)@ == Some(handle),
    {
        self.handle = Some(handle);
    }

    /// Closes an open gate and hands its handle back.
    pub fn close(&mut self) -> (handle: H)
        requires
            old(self)@ is Some,
        ensures
            final(self)@ is None,
            old(self)@ == Some(handle),
    {
        self.handle.take().unwrap()
    }

    /// Runs `task` against the handle of an open gate. The task borrows the
    /// handle for the length of the call and cannot keep it; afterwards the
    /// handle is as the task left it.
    pub fn run<Out, F: FnOnce(&mut H) -> Out>(&mut self, task: F) -> (out: Out)
        requires
            old(self)@ is Some,
            forall|h: &mut H| *h == old(self)@->0 ==> call_requires(task, (h,)),
        ensures
            exists|h: &mut H|
                *h == old(self)@->0 && #[trigger] call_ensures(task, (h,), out) && final(self)@
                    == Some(*final(h)),
    {
        match &mut self.handle {
            Some(handle) => task(handle),
            None => unreached(),
        }
    }
}

} // verus!
