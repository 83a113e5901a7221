//! An access broker between asynchronous tasks and a resource that a
//! single-threaded host loop owns.
//!
//! Tasks on any thread ask for transient, exclusive access to a resource. The
//! host loop grants it only at checkpoints: it opens the resource's gate,
//! wakes the tasks that parked since the last checkpoint, waits until each of
//! them has run, and closes that gate again.
//!
//! The broker is a plain value. Every operation is one step from a broker
//! state to the next, and its contract says which. Callers that share a
//! broker between threads put it behind a lock of their own and hold that
//! lock for the length of one step; the wait between opening and closing a
//! checkpoint needs no lock.

pub mod access;
pub mod checkpoint;
pub mod gate;
pub mod laws;
pub mod model;
pub mod plugin;
pub mod registry;
pub mod resource;
pub mod slot;
pub mod tickets;
pub mod waiters;

pub use access::AccessPoll;
pub use checkpoint::CheckpointWindow;
pub use gate::AccessGate;
pub use plugin::{AsyncPlugin, Schedule};
pub use registry::Broker;
pub use resource::ResourceId;
pub use slot::ResourceSlot;
pub use tickets::{wait_until_empty, AsyncEcsCounter};
pub use waiters::{wake_all, WaiterRegistry};
