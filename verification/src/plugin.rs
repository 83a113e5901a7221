//! Bootstrap: what has to be set up for a resource before tasks may ask for
//! it, and where in the host loop's tick its checkpoints run.

use crate::model::step_register;
use crate::registry::Broker;
use crate::resource::ResourceId;
use vstd::prelude::*;

verus! {

/// A point of the host loop's tick. The first three are passed once, when the
/// loop starts; the last three are passed on every tick.
#[derive(Clone, Copy, Debug, PartialEq, Eq, Structural)]
pub enum Schedule {
    PreStartup,
    Startup,
    PostStartup,
    PreUpdate,
    Update,
    PostUpdate,
}

/// Sets a resource up for asynchronous access.
pub struct AsyncPlugin;

impl AsyncPlugin {
    /// The points of the tick at which the checkpoint driver has to run, in
    /// the order in which the host loop passes them.
    pub open spec fn checkpoints() -> Seq<Schedule> {
        seq![
            Schedule::PreStartup,
            Schedule::Startup,
            Schedule::PostStartup,
            Schedule::PreUpdate,
            Schedule::Update,
            Schedule::PostUpdate,
        ]
    }

    /// Registers `id` with `broker` and returns the points of the tick at
    /// which the host loop has to run the checkpoint driver for it.
    pub fn build<H>(&self, broker: &mut Broker<H>, id: ResourceId) -> (schedules: Vec<Schedule>)
        ensures
            final(broker)@ == step_register(old(broker)@, id),
            schedules@ == Self::checkpoints(),
    {
        let _ = broker.register_resource(id);
        let mut schedules: Vec<Schedule> = Vec::new();
        schedules.push(Schedule::PreStartup);
        schedules.push(Schedule::Startup);
        schedules.push(Schedule::PostStartup);
        schedules.push(Schedule::PreUpdate);
        schedules.push(Schedule::Update);
        schedules.push(Schedule::PostUpdate);
        assert(schedules@ =~= Self::checkpoints());
        schedules
    }
}

} // verus!
