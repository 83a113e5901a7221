//! The ticket counter: the completion barrier of one checkpoint.
//!
//! A ticket is one share of a `crossbeam` wait group. Resetting the counter
//! for a checkpoint issues one ticket for each woken waiter, and a waiter's
//! completion retires one. The driver holds the last share and blocks on it
//! until every ticket is gone.

use crate::model::tickets_after;
use crossbeam::sync::WaitGroup;
use vstd::prelude::*;

verus! {

/// `crossbeam::sync::WaitGroup`, as an opaque token: one share of a wait
/// group.
#[verifier::external_type_specification]
#[verifier::external_body]
pub struct ExWaitGroup(WaitGroup);

/// `WaitGroup::new`: a fresh wait group, of which the result is the only
/// share. Nothing is claimed of the result.
#[verifier::external_body]
fn new_wait_group() -> (group: WaitGroup) {
    WaitGroup::new()
}

/// `WaitGroup::clone`: one more share of the wait group of `group`. Nothing
/// is claimed of the result.
#[verifier::external_body]
fn share_wait_group(group: &WaitGroup) -> (share: WaitGroup) {
    group.clone()
}

/// `WaitGroup::wait`: gives this share up and blocks the calling thread until
/// every other share of its wait group has been dropped. It returns at once
/// when there is no other share, and not at all while one is kept alive.
/// Nothing is claimed of it.
#[verifier::external_body]
fn block_on_wait_group(group: WaitGroup) {
    group.wait()
}

/// The tickets that are still out for the current checkpoint of one
/// resource.
pub struct AsyncEcsCounter {
    tickets: Vec<WaitGroup>,
}

impl AsyncEcsCounter {
    /// The number of tickets that have been issued and not yet retired.
    pub closed spec fn outstanding(&self) -> nat {
        self.tickets@.len()
    }

    /// A counter with no ticket out.
    pub fn new() -> (counter: Self)
        ensures
            counter.outstanding() == 0,
    {
        AsyncEcsCounter { tickets: Vec::new() }
    }

    /// The number of tickets that are out.
    pub fn count(&self) -> (n: usize)
        ensures
            n == self.outstanding(),
    {
        self.tickets.len()
    }

    /// Starts the barrier of a new checkpoint: whatever tickets were left are
    /// discarded and `n` fresh ones are issued. The result is the share to
    /// block on. There is none when no ticket was issued, so that an empty
    /// checkpoint has nothing to wait for.
    pub fn reset(&mut self, n: usize) -> (barrier: Option<WaitGroup>)
        ensures
            final(self).outstanding() == n,
            barrier is Some <==> n > 0,
    {
        self.tickets.clear();
        if n == 0 {
            return None;
        }
        let group = new_wait_group();
        let mut issued: usize = 0;
        while issued < n
            invariant
                issued <= n,
                self.tickets@.len() == issued,
            decreases n - issued,
        {
            self.tickets.push(share_wait_group(&group));
            issued = issued + 1;
        }
        Some(group)
    }

    /// Retires one ticket. With no ticket out the counter stays empty.
    pub fn release_one(&mut self)
        ensures
            final(self).outstanding() == tickets_after(old(self).outstanding(), 1),
    {
        let _ = self.tickets.pop();
    }
}

impl Default for AsyncEcsCounter {
    /// A counter with no ticket out.
    fn default() -> (counter: Self)
        ensures
            counter.outstanding() == 0,
    {
        AsyncEcsCounter::new()
    }
}

/// Blocks the calling thread until every ticket of the checkpoint that issued
/// `barrier` has been retired, and returns whether it had to wait on a
/// barrier at all. Without a barrier there is nothing to wait for: the call
/// returns at once and blocks on nothing.
///
/// The barrier has no timeout: a ticket that is never retired keeps this call
/// from returning.
pub fn wait_until_empty(barrier: Option<WaitGroup>) -> (waited: bool)
    ensures
        waited == (barrier is Some),
{
    match barrier {
        Some(group) => {
            block_on_wait_group(group);
            true
        },
        None => false,
    }
}

} // verus!
