//! Identity of a host-owned resource.

use vstd::prelude::*;

verus! {

/// Stable identity of a resource. Two identities name the same resource
/// exactly when their numbers are equal.
#[derive(Clone, Copy, Debug, PartialEq, Eq, Hash, Structural)]
pub struct ResourceId(pub usize);

} // verus!
