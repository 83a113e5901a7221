//! The window of one checkpoint: what the driver holds between opening a
//! resource's gate and closing it.

use crate::waiters::wake_all;
use crossbeam::sync::WaitGroup;
use std::task::Waker;
use vstd::prelude::*;

verus! {

/// The waiters that a checkpoint drained, and the barrier on which the driver
/// waits for them.
pub struct CheckpointWindow {
    wakers: Vec<Waker>,
    barrier: Option<WaitGroup>,
}

impl CheckpointWindow {
    /// The drained continuations, first arrival first.
    pub closed spec fn wakers(&self) -> Seq<Waker> {
        self.wakers@
    }

    /// The share of the completion barrier to block on, if there is anything
    /// to wait for.
    pub closed spec fn barrier(&self) -> Option<WaitGroup> {
        self.barrier
    }

    /// Puts a window together from what a checkpoint drained and the barrier
    /// that was started for it.
    pub fn new(wakers: Vec<Waker>, barrier: Option<WaitGroup>) -> (window: Self)
        ensures
            window.wakers() == wakers@,
            window.barrier() == barrier,
    {
        CheckpointWindow { wakers, barrier }
    }

    /// The number of continuations that the checkpoint drained.
    pub fn drained(&self) -> (n: usize)
        ensures
            n == self.wakers().len(),
    {
        self.wakers.len()
    }

    /// Wakes every drained continuation, first arrival first, and hands out
    /// the barrier to wait on while they run.
    pub fn wake_all(self) -> (barrier: Option<WaitGroup>)
        ensures
            barrier == self.barrier(),
    {
        let _ = wake_all(self.wakers);
        self.barrier
    }
}

} // verus!
