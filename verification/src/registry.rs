//! The resource registry: the broker itself. It keeps one slot for each
//! resource and routes every step to the slot of the resource it names, so
//! that resources never see each other's gate, waiters or tickets.

use crate::access::AccessPoll;
use crate::checkpoint::CheckpointWindow;
use crate::model::{
    step_close, step_complete, step_open, step_park, step_register, BrokerView, SlotView,
};
use crate::resource::ResourceId;
use crate::slot::ResourceSlot;
use bevy_platform::collections::HashMap;
use bevy_platform::hash::FixedHasher;
use std::task::Waker;
use vstd::prelude::*;

verus! {

/// `bevy_platform::hash::FixedHasher`: the hasher that the index is built
/// with.
#[verifier::external_type_specification]
#[verifier::external_body]
pub struct ExFixedHasher(FixedHasher);

/// `bevy_platform::collections::HashMap`, of which Verus sees only what
/// `index_entries` says.
#[verifier::external_type_specification]
#[verifier::external_body]
#[verifier::reject_recursive_types(K)]
#[verifier::reject_recursive_types(V)]
#[verifier::reject_recursive_types(S)]
pub struct ExHashMap<K, V, S>(HashMap<K, V, S>);

/// What a `bevy_platform` hash map from resource numbers to slot positions
/// holds: the keys that are present, each with its value.
pub uninterp spec fn index_entries(index: HashMap<usize, usize>) -> Map<usize, usize>;

/// `HashMap::new`: a map that holds no key.
#[verifier::external_body]
fn index_new() -> (index: HashMap<usize, usize>)
    ensures
        index_entries(index).dom() == Set::<usize>::empty(),
{
    HashMap::new()
}

/// `HashMap::get`: the value that is stored under `key`, or nothing when the
/// key is not present.
#[verifier::external_body]
fn index_get(index: &HashMap<usize, usize>, key: usize) -> (position: Option<usize>)
    ensures
        position is Some <==> index_entries(*index).dom().contains(key),
        position is Some ==> position->0 == index_entries(*index)[key],
{
    index.get(&key).copied()
}

/// `HashMap::insert`: stores `position` under `key`, in place of what was
/// there, and leaves every other key alone. The result is the value that
/// stood under `key` before, if there was one.
#[verifier::external_body]
fn index_insert(index: &mut HashMap<usize, usize>, key: usize, position: usize) -> (previous:
    Option<usize>)
    ensures
        index_entries(*final(index)) == index_entries(*old(index)).insert(key, position),
        previous is Some <==> index_entries(*old(index)).dom().contains(key),
        previous is Some ==> previous->0 == index_entries(*old(index))[key],
{
    index.insert(key, position)
}

/// The access broker of a host loop: the slots of all its resources.
pub struct Broker<H> {
    index: HashMap<usize, usize>,
    slots: Vec<ResourceSlot<H>>,
}

/// The index and the slots agree: every key leads to the slot of its
/// resource, every slot is reached by its resource's key, and no slot has a
/// ticket out while its gate is closed.
spec fn agree<H>(entries: Map<usize, usize>, slots: Seq<ResourceSlot<H>>) -> bool {
    &&& forall|key: usize| #[trigger]
        entries.dom().contains(key) ==> {
            &&& entries[key] < slots.len()
            &&& slots[entries[key] as int].id() == ResourceId(key)
        }
    &&& forall|i: int|
        0 <= i < slots.len() ==> {
            &&& entries.dom().contains((#[trigger] slots[i]).id().0)
            &&& entries[slots[i].id().0] == i
            &&& slots[i]@.settled()
        }
}

/// The registered resources, each with what its slot holds.
spec fn state_of<H>(entries: Map<usize, usize>, slots: Seq<ResourceSlot<H>>) -> BrokerView<H> {
    Map::new(
        |id: ResourceId| entries.dom().contains(id.0),
        |id: ResourceId| slots[entries[id.0] as int]@,
    )
}

/// Replacing the slot of `id` by one that is settled changes the state at
/// `id` and nowhere else.
proof fn lemma_slot_replaced<H>(
    entries: Map<usize, usize>,
    before: Seq<ResourceSlot<H>>,
    after: Seq<ResourceSlot<H>>,
    id: ResourceId,
)
    requires
        agree(entries, before),
        entries.dom().contains(id.0),
        after.len() == before.len(),
        forall|i: int| 0 <= i < before.len() && i != entries[id.0] ==> after[i] == before[i],
        after[entries[id.0] as int].id() == id,
        after[entries[id.0] as int]@.settled(),
    ensures
        agree(entries, after),
        state_of(entries, after) == state_of(entries, before).insert(
            id,
            after[entries[id.0] as int]@,
        ),
{
    let position = entries[id.0] as int;
    assert forall|key: usize| #[trigger] entries.dom().contains(key) implies {
        &&& entries[key] < after.len()
        &&& after[entries[key] as int].id() == ResourceId(key)
    } by {
        if entries[key] != position {
            assert(after[entries[key] as int] == before[entries[key] as int]);
        }
    }
    assert forall|i: int| 0 <= i < after.len() implies {
        &&& entries.dom().contains((#[trigger] after[i]).id().0)
        &&& entries[after[i].id().0] == i
        &&& after[i]@.settled()
    } by {
        if i != position {
            assert(after[i] == before[i]);
        }
    }
    assert forall|other: ResourceId| #[trigger]
        state_of(entries, after).dom().contains(other) && other != id implies state_of(
        entries,
        after,
    )[other] == state_of(entries, before)[other] by {
        assert(entries.dom().contains(other.0));
        assert(before[entries[other.0] as int].id() == other);
    }
    assert(state_of(entries, after) =~= state_of(entries, before).insert(id, after[position]@));
}

impl<H> View for Broker<H> {
    type V = BrokerView<H>;

    /// The registered resources, each with what its slot holds.
    closed spec fn view(&self) -> BrokerView<H> {
        state_of(index_entries(self.index), self.slots@)
    }
}

impl<H> Broker<H> {
    /// Every broker is whole: its index and its slots agree.
    #[verifier::type_invariant]
    spec fn wf(self) -> bool {
        agree(index_entries(self.index), self.slots@)
    }

    /// A broker with no resource registered.
    pub fn new() -> (broker: Self)
        ensures
            broker@ == Map::<ResourceId, SlotView<H>>::empty(),
    {
        let broker = Broker { index: index_new(), slots: Vec::new() };
        assert(broker@ =~= Map::<ResourceId, SlotView<H>>::empty());
        broker
    }

    /// Takes the index and the slots out and leaves an empty broker behind.
    fn take_parts(&mut self) -> (parts: (HashMap<usize, usize>, Vec<ResourceSlot<H>>))
        ensures
            parts.0 == old(self).index,
            parts.1 == old(self).slots,
            agree(index_entries(parts.0), parts.1@),
    {
        proof {
            use_type_invariant(&*self);
        }
        let mut taken = Broker::new();
        std::mem::swap(self, &mut taken);
        let Broker { index, slots } = taken;
        (index, slots)
    }

    /// Puts an index and slots that agree in place of what the broker holds.
    fn put_parts(&mut self, index: HashMap<usize, usize>, slots: Vec<ResourceSlot<H>>)
        requires
            agree(index_entries(index), slots@),
        ensures
            final(self).index == index,
            final(self).slots == slots,
    {
        *self = Broker { index, slots };
    }

    /// Takes the slot of `id` out, with its position, and leaves an idle slot
    /// in its place. While a slot is lent out, the broker is whole and the
    /// other resources are as they were.
    fn lend(&mut self, id: ResourceId) -> (lent: Option<(usize, ResourceSlot<H>)>)
        ensures
            final(self).index == old(self).index,
            lent is Some <==> old(self)@.dom().contains(id),
            lent is None ==> final(self).slots == old(self).slots,
            lent is Some ==> index_entries(old(self).index).dom().contains(id.0),
            lent is Some ==> index_entries(old(self).index)[id.0] == lent.unwrap().0,
            lent is Some ==> lent.unwrap().1.id() == id,
            lent is Some ==> lent.unwrap().1@ == old(self)@[id],
            lent is Some ==> lent.unwrap().1@.settled(),
            lent is Some ==> final(self)@ == old(self)@.insert(id, SlotView::idle()),
    {
        let (index, mut slots) = self.take_parts();
        let ghost before = slots@;
        match index_get(&index, id.0) {
            None => {
                self.put_parts(index, slots);
                None
            },
            Some(position) => {
                let mut slot = ResourceSlot::new(id);
                std::mem::swap(&mut slots[position], &mut slot);
                proof {
                    lemma_slot_replaced(index_entries(index), before, slots@, id);
                }
                self.put_parts(index, slots);
                Some((position, slot))
            },
        }
    }

    /// Puts a slot that was lent out back in its place.
    fn give_back(&mut self, position: usize, slot: ResourceSlot<H>)
        requires
            index_entries(old(self).index).dom().contains(slot.id().0),
            index_entries(old(self).index)[slot.id().0] == position,
            slot@.settled(),
        ensures
            final(self).index == old(self).index,
            final(self)@ == old(self)@.insert(slot.id(), slot@),
    {
        let (index, mut slots) = self.take_parts();
        let ghost before = slots@;
        let mut slot = slot;
        std::mem::swap(&mut slots[position], &mut slot);
        proof {
            lemma_slot_replaced(index_entries(index), before, slots@, slots@[position as int].id());
        }
        self.put_parts(index, slots);
    }

    /// The position of the slot of `id`, if the resource is registered.
    fn find(&self, id: ResourceId) -> (found: Option<usize>)
        ensures
            found is Some <==> self@.dom().contains(id),
            found is Some ==> found->0 < self.slots@.len(),
            found is Some ==> self.slots@[found->0 as int]@ == self@[id],
            found is Some ==> self@[id].settled(),
    {
        proof {
            use_type_invariant(self);
        }
        index_get(&self.index, id.0)
    }

    /// Whether `id` is registered.
    pub fn contains(&self, id: ResourceId) -> (known: bool)
        ensures
            known == self@.dom().contains(id),
    {
        self.find(id).is_some()
    }

    /// Whether a checkpoint window of `id` is open. An unregistered resource
    /// has none.
    pub fn is_open(&self, id: ResourceId) -> (open: bool)
        ensures
            open == (self@.dom().contains(id) && self@[id].gate is Some),
    {
        match self.find(id) {
            Some(i) => self.slots[i].is_open(),
            None => false,
        }
    }

    /// The number of continuations parked for the next checkpoint of `id`.
    pub fn parked(&self, id: ResourceId) -> (n: usize)
        ensures
            self@.dom().contains(id) ==> n == self@[id].parked.len(),
            !self@.dom().contains(id) ==> n == 0,
    {
        match self.find(id) {
            Some(i) => self.slots[i].parked(),
            None => 0,
        }
    }

    /// The number of tickets of the current checkpoint of `id` that are
    /// still out. There is none while no window of `id` is open.
    pub fn outstanding(&self, id: ResourceId) -> (n: usize)
        ensures
            self@.dom().contains(id) ==> n == self@[id].outstanding,
            self@.dom().contains(id) ==> self@[id].settled(),
            !self@.dom().contains(id) ==> n == 0,
    {
        match self.find(id) {
            Some(i) => self.slots[i].outstanding(),
            None => 0,
        }
    }

    /// Registers `id`: an unknown resource gets an idle slot, a known one
    /// keeps what it has. Returns whether the slot is new.
    pub fn register_resource(&mut self, id: ResourceId) -> (created: bool)
        ensures
            final(self)@ == step_register(old(self)@, id),
            created == !old(self)@.dom().contains(id),
    {
        let (mut index, mut slots) = self.take_parts();
        let created = index_get(&index, id.0).is_none();
        if created {
            let ghost entries = index_entries(index);
            let ghost before = slots@;
            let position: usize = slots.len();
            let _ = index_insert(&mut index, id.0, position);
            slots.push(ResourceSlot::new(id));
            proof {
                assert forall|i: int| 0 <= i < slots@.len() implies {
                    &&& index_entries(index).dom().contains((#[trigger] slots@[i]).id().0)
                    &&& index_entries(index)[slots@[i].id().0] == i
                    &&& slots@[i]@.settled()
                } by {
                    if i < before.len() {
                        assert(slots@[i] == before[i]);
                    }
                }
                assert(state_of(index_entries(index), slots@) =~= step_register(
                    state_of(entries, before),
                    id,
                ));
            }
        }
        self.put_parts(index, slots);
        created
    }

    /// One poll of an access request for `id`.
    ///
    /// In an open window of `id` the task runs at once against the handle,
    /// and when it has returned one ticket of the checkpoint is retired.
    /// Outside of a window the waker is parked for the next checkpoint and
    /// the task comes back unrun. A request for a resource that is not
    /// registered is turned away and changes nothing. No other resource is
    /// touched.
    ///
    /// While the task runs, the broker holds an idle slot in place of the
    /// slot of `id`. A task that panics therefore takes the window of its
    /// resource down with it and leaves the other resources as they are.
    pub fn poll_access<Out, F: FnOnce(&mut H) -> Out>(
        &mut self,
        id: ResourceId,
        task: F,
        waker: Waker,
    ) -> (poll: AccessPoll<Out, F>)
        requires
            forall|h: &mut H|
                old(self)@.dom().contains(id) && old(self)@[id].gate == Some(*h)
                    ==> call_requires(task, (h,)),
        ensures
            !old(self)@.dom().contains(id) ==> poll == AccessPoll::<Out, F>::Unregistered(task),
            !old(self)@.dom().contains(id) ==> final(self)@ == old(self)@,
            old(self)@.dom().contains(id) && old(self)@[id].gate is None ==> poll
                == AccessPoll::<Out, F>::Pending(task),
            old(self)@.dom().contains(id) && old(self)@[id].gate is None ==> final(self)@
                == step_park(old(self)@, id, waker),
            old(self)@.dom().contains(id) && old(self)@[id].gate is Some ==> poll is Ready,
            old(self)@.dom().contains(id) && old(self)@[id].gate is Some ==> exists|h: &mut H|
                *h == old(self)@[id].gate->0 && #[trigger] call_ensures(task, (h,), poll->Ready_0)
                    && final(self)@ == step_complete(old(self)@, id, *final(h)),
    {
        match self.lend(id) {
            None => AccessPoll::Unregistered(task),
            Some((position, slot)) => {
                let ghost lent = slot;
                let mut slot = slot;
                let poll = slot.poll_access(task, waker);
                self.give_back(position, slot);
                proof {
                    assert(self@ =~= old(self)@.insert(id, slot@));
                    if lent@.gate is Some {
                        let h = choose|h: &mut H|
                            *h == lent@.gate->0 && #[trigger] call_ensures(
                                task,
                                (h,),
                                poll->Ready_0,
                            ) && slot@ == lent@.complete(*final(h));
                        assert(self@ == step_complete(old(self)@, id, *final(h)));
                    }
                }
                poll
            },
        }
    }

    /// Opens a checkpoint of `id`: installs `handle` in its gate, drains the
    /// waiters of `id` and issues one ticket for each of them. A resource
    /// that is not yet registered is registered on the way. The window that
    /// comes back holds the drained wakers and, unless nobody was parked, the
    /// barrier to wait on. No other resource is touched.
    ///
    /// A window of `id` that was still open is replaced: its handle and the
    /// tickets that were left of it are discarded.
    pub fn open_checkpoint(&mut self, id: ResourceId, handle: H) -> (window: CheckpointWindow)
        ensures
            final(self)@ == step_open(old(self)@, id, handle),
            window.wakers() == step_register(old(self)@, id)[id].parked,
            window.barrier() is Some <==> window.wakers().len() > 0,
    {
        let _ = self.register_resource(id);
        let lent = self.lend(id);
        let (position, mut slot) = lent.unwrap();
        let window = slot.open_checkpoint(handle);
        self.give_back(position, slot);
        proof {
            assert(self@ =~= step_open(old(self)@, id, handle));
        }
        window
    }

    /// Closes the checkpoint of `id` and hands the resource's handle back, as
    /// the last task left it. No other resource is touched.
    pub fn close_checkpoint(&mut self, id: ResourceId) -> (handle: H)
        requires
            old(self)@.dom().contains(id),
            old(self)@[id].gate is Some,
            old(self)@[id].outstanding == 0,
        ensures
            final(self)@ == step_close(old(self)@, id),
            old(self)@[id].gate == Some(handle),
    {
        let lent = self.lend(id);
        let (position, mut slot) = lent.unwrap();
        let handle = slot.close_checkpoint();
        self.give_back(position, slot);
        proof {
            assert(self@ =~= step_close(old(self)@, id));
        }
        handle
    }
}

} // verus!
