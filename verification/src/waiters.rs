//! The waiter registry: the continuations of one resource that parked since
//! its last checkpoint, in the order in which they arrived.

use std::task::Waker;
use vstd::prelude::*;

verus! {

/// `std::task::Waker`, as an opaque token: the continuation of a parked
/// task.
#[verifier::external_type_specification]
#[verifier::external_body]
pub struct ExWaker(Waker);

/// `Waker::wake`: wakes the task that the waker belongs to, and consumes the
/// waker. It returns nothing, and nothing is claimed of it.
pub assume_specification[ Waker::wake ](waker: Waker);

/// The parked continuations of one resource.
pub struct WaiterRegistry {
    parked: Vec<Waker>,
}

impl View for WaiterRegistry {
    type V = Seq<Waker>;

    /// The parked wakers, first arrival first.
    closed spec fn view(&self) -> Seq<Waker> {
        self.parked@
    }
}

impl WaiterRegistry {
    /// A registry with nobody parked.
    pub fn new() -> (registry: Self)
        ensures
            registry@ == Seq::<Waker>::empty(),
    {
        WaiterRegistry { parked: Vec::new() }
    }

    /// The number of parked continuations.
    pub fn len(&self) -> (n: usize)
        ensures
            n == self@.len(),
    {
        self.parked.len()
    }

    /// Parks `waker` behind those that are already waiting.
    pub fn register(&mut self, waker: Waker)
        ensures
            final(self)@ == old(self)@.push(waker),
    {
        self.parked.push(waker);
    }

    /// Takes out everybody who is parked, in arrival order, and leaves a
    /// fresh list for registrations that come later.
    pub fn drain(&mut self) -> (wakers: Vec<Waker>)
        ensures
            wakers@ == old(self)@,
            final(self)@ == Seq::<Waker>::empty(),
    {
        let mut wakers: Vec<Waker> = Vec::new();
        std::mem::swap(&mut self.parked, &mut wakers);
        wakers
    }
}

/// Wakes every continuation of `wakers`, first arrival first, and returns how
/// many there were.
pub fn wake_all(wakers: Vec<Waker>) -> (woken: usize)
    ensures
        woken == wakers@.len(),
{
    let woken: usize = wakers.len();
    for waker in wakers {
        waker.wake();
    }
    woken
}

} // verus!
