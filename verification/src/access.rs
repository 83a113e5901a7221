//! The outcome of one poll of an access request.

use vstd::prelude::*;

verus! {

/// What became of an access request when it was polled.
pub enum AccessPoll<Out, F> {
    /// The resource's gate was open: the task has run, and this is what it
    /// returned.
    Ready(Out),
    /// The resource's gate was closed: the caller is parked until the next
    /// checkpoint and gets its task back, to poll with again once it is
    /// woken.
    Pending(F),
    /// The resource is not registered with the broker: nothing was done, and
    /// the task comes back. Nobody would ever wake such a request.
    Unregistered(F),
}

} // verus!
