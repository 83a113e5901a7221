use bevy_malek_async::{
    wait_until_empty, wake_all, AccessGate, AccessPoll, AsyncEcsCounter, AsyncPlugin, Broker,
    CheckpointWindow, ResourceId, ResourceSlot, Schedule, WaiterRegistry,
};
use std::sync::atomic::{AtomicUsize, Ordering};
use std::sync::Arc;
use std::task::{Wake, Waker};

struct Chime {
    rings: AtomicUsize,
}

impl Wake for Chime {
    fn wake(self: Arc<Self>) {
        self.rings.fetch_add(1, Ordering::SeqCst);
    }
}

fn chime() -> (Arc<Chime>, Waker) {
    let chime = Arc::new(Chime { rings: AtomicUsize::new(0) });
    let waker = Waker::from(chime.clone());
    (chime, waker)
}

#[test]
fn gate_is_open_only_between_open_and_close() {
    let mut gate: AccessGate<String> = AccessGate::new();
    assert!(!gate.is_open());
    gate.open(String::from("world"));
    assert!(gate.is_open());
    let length = gate.run(|text: &mut String| {
        text.push('!');
        text.len()
    });
    assert_eq!(length, 6);
    assert_eq!(gate.close(), "world!");
    assert!(!gate.is_open());
}

#[test]
fn counter_starts_empty() {
    assert_eq!(AsyncEcsCounter::new().count(), 0);
    assert_eq!(AsyncEcsCounter::default().count(), 0);
}

#[test]
fn reset_issues_as_many_tickets_as_asked() {
    let mut counter = AsyncEcsCounter::new();
    let barrier = counter.reset(3);
    assert!(barrier.is_some());
    assert_eq!(counter.count(), 3);
    let second = counter.reset(1);
    assert!(second.is_some());
    assert_eq!(counter.count(), 1);
    wait_until_empty(barrier);
    let none = counter.reset(0);
    assert!(none.is_none());
    assert_eq!(counter.count(), 0);
    wait_until_empty(second);
}

#[test]
fn release_one_stops_at_zero() {
    let mut counter = AsyncEcsCounter::new();
    let barrier = counter.reset(2);
    counter.release_one();
    assert_eq!(counter.count(), 1);
    counter.release_one();
    assert_eq!(counter.count(), 0);
    counter.release_one();
    assert_eq!(counter.count(), 0);
    wait_until_empty(barrier);
}

#[test]
fn wait_returns_once_every_ticket_is_retired() {
    let mut counter = AsyncEcsCounter::new();
    let barrier = counter.reset(4);
    for _ in 0..4 {
        counter.release_one();
    }
    assert!(wait_until_empty(barrier));
    assert_eq!(counter.count(), 0);
}

#[test]
fn registry_drains_in_arrival_order_and_starts_afresh() {
    let mut registry = WaiterRegistry::new();
    assert_eq!(registry.len(), 0);
    let (first, first_waker) = chime();
    let (second, second_waker) = chime();
    registry.register(first_waker);
    registry.register(second_waker);
    assert_eq!(registry.len(), 2);
    let drained = registry.drain();
    assert_eq!(registry.len(), 0);
    assert_eq!(drained.len(), 2);
    assert!(drained[0].will_wake(&Waker::from(first.clone())));
    assert!(drained[1].will_wake(&Waker::from(second.clone())));
    let (_, late) = chime();
    registry.register(late);
    assert_eq!(registry.len(), 1);
    assert_eq!(wake_all(drained), 2);
    assert_eq!(first.rings.load(Ordering::SeqCst), 1);
    assert_eq!(second.rings.load(Ordering::SeqCst), 1);
    assert_eq!(wake_all(Vec::new()), 0);
}

#[test]
fn window_hands_out_the_barrier_it_was_made_with() {
    let (rung, waker) = chime();
    let mut counter = AsyncEcsCounter::new();
    let barrier = counter.reset(1);
    let window = CheckpointWindow::new(vec![waker], barrier);
    assert_eq!(window.drained(), 1);
    let barrier = window.wake_all();
    assert!(barrier.is_some());
    assert_eq!(rung.rings.load(Ordering::SeqCst), 1);
    counter.release_one();
    wait_until_empty(barrier);

    let empty = CheckpointWindow::new(Vec::new(), None);
    assert_eq!(empty.drained(), 0);
    assert!(empty.wake_all().is_none());
}

#[test]
fn slot_goes_through_one_checkpoint() {
    let mut slot: ResourceSlot<u32> = ResourceSlot::new(ResourceId(12));
    assert_eq!(slot.resource_id(), ResourceId(12));
    assert!(!slot.is_open());
    let (rung, waker) = chime();
    let double = |value: &mut u32| {
        *value *= 2;
        *value
    };
    let task = match slot.poll_access(double, waker.clone()) {
        AccessPoll::Pending(task) => task,
        _ => panic!("its gate is closed"),
    };
    assert_eq!(slot.parked(), 1);
    assert_eq!(slot.outstanding(), 0);
    let window = slot.open_checkpoint(21);
    assert!(slot.is_open());
    assert_eq!(slot.parked(), 0);
    assert_eq!(slot.outstanding(), 1);
    let barrier = window.wake_all();
    assert_eq!(rung.rings.load(Ordering::SeqCst), 1);
    assert!(matches!(slot.poll_access(task, waker), AccessPoll::Ready(42)));
    assert_eq!(slot.outstanding(), 0);
    wait_until_empty(barrier);
    assert_eq!(slot.close_checkpoint(), 42);
    assert!(!slot.is_open());
}

#[test]
fn plugin_registers_the_resource_and_names_six_checkpoints() {
    let mut broker: Broker<u32> = Broker::new();
    let id = ResourceId(13);
    let schedules = AsyncPlugin.build(&mut broker, id);
    assert!(broker.contains(id));
    assert!(!broker.is_open(id));
    assert_eq!(
        schedules,
        vec![
            Schedule::PreStartup,
            Schedule::Startup,
            Schedule::PostStartup,
            Schedule::PreUpdate,
            Schedule::Update,
            Schedule::PostUpdate,
        ]
    );
    let again = AsyncPlugin.build(&mut broker, id);
    assert_eq!(again.len(), 6);
    assert!(broker.contains(id));
}

#[test]
fn resource_ids_compare_by_number() {
    assert_eq!(ResourceId(3), ResourceId(3));
    assert_ne!(ResourceId(3), ResourceId(4));
    let copy = ResourceId(5);
    let same = copy;
    assert_eq!(copy, same);
}
