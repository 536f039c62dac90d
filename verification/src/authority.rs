//! Access to the physical planes, with a record of what was done in which
//! order.

use crate::generation_slot::{
    current_generation, load_generation, new_slot, store_generation, GenerationSlot,
};
use crate::port::{PortError, PortResult};
use crate::read_topology::ShmReadTopologyGeneration;
use crate::shm_client::{ReconnectingSlotSource, ShmChannelHealthReader, ShmPlaneAccess};
use crate::shm_path::ShmPath;
use std::sync::Arc;
use vstd::prelude::*;

verus! {

/// One thing that was done through a [`PlaneSession`]. A request carries its
/// refusal, if it was refused.
pub enum PlaneEvent {
    /// The lease of a plane was asked for.
    Lease {
        /// The plane.
        path: ShmPath,
        /// Why it was not granted.
        refusal: Option<PortError>,
    },
    /// The layout of the point plane was checked.
    PointLayout {
        /// The source whose plane was checked.
        source: ReconnectingSlotSource,
        /// The number of slots that it must have.
        slot_count: usize,
        /// Why it was not confirmed.
        refusal: Option<PortError>,
    },
    /// The layout of the health plane was checked.
    HealthLayout {
        /// The reader whose plane was checked.
        reader: ShmChannelHealthReader,
        /// Why it was not confirmed.
        refusal: Option<PortError>,
    },
    /// A publication was run from its start to its end.
    Publication,
    /// The generation in a slot was replaced.
    Replacement {
        /// The slot.
        slot: SlotIdentity,
        /// Every generation that it held before, the earliest first.
        before: Seq<ShmReadTopologyGeneration>,
        /// The generation that it holds since.
        generation: ShmReadTopologyGeneration,
    },
    /// The lease of a plane was given back.
    Release {
        /// The plane.
        path: ShmPath,
    },
}

/// Why a request was refused, if it was.
pub open spec fn refusal_of<T>(reply: PortResult<T>) -> Option<PortError> {
    match reply {
        Ok(_) => None,
        Err(error) => Some(error),
    }
}

/// What is left of `held` when one lease of `path` is given back: the one taken
/// last. The other leases stay in their order.
pub open spec fn without_last(held: Seq<ShmPath>, path: ShmPath) -> Seq<ShmPath>
    decreases held.len(),
{
    if held.len() == 0 {
        held
    } else if held.last() == path {
        held.drop_last()
    } else {
        without_last(held.drop_last(), path).push(held.last())
    }
}

/// The planes whose leases are held after `events`, in the order in which they
/// were taken.
pub open spec fn held_after(events: Seq<PlaneEvent>) -> Seq<ShmPath>
    decreases events.len(),
{
    if events.len() == 0 {
        Seq::empty()
    } else {
        let before = held_after(events.drop_last());
        match events.last() {
            PlaneEvent::Lease { path, refusal: None } => before.push(path),
            PlaneEvent::Release { path } => without_last(before, path),
            _ => before,
        }
    }
}

/// The generation that `slot` holds after `events`, if it held `initial` before
/// them and they tell all that was done with it. What happens to other slots
/// does not count.
pub open spec fn generation_after(
    slot: SlotIdentity,
    initial: ShmReadTopologyGeneration,
    events: Seq<PlaneEvent>,
) -> ShmReadTopologyGeneration
    decreases events.len(),
{
    if events.len() == 0 {
        initial
    } else {
        match events.last() {
            PlaneEvent::Replacement { slot: replaced, generation, .. } if replaced == slot =>
                generation,
            _ => generation_after(slot, initial, events.drop_last()),
        }
    }
}

/// Which slot a [`TopologySlot`] is. It stays the same as long as the slot
/// exists, and nothing can be learnt of it but by following the slot: of two
/// slots that were made apart it is never known that they are one.
pub struct SlotIdentity {
    mark: int,
}

/// What a [`TopologySlot`] is known by.
pub struct TopologySlotView {
    /// Which slot it is.
    pub slot: SlotIdentity,
    /// Every generation that it held, the earliest first. The last is the one
    /// that it holds now.
    pub history: Seq<ShmReadTopologyGeneration>,
}

/// A slot for the current generation. What it holds is replaced through a
/// [`PlaneSession`] only, so every replacement is on record.
pub struct TopologySlot {
    cell: GenerationSlot,
    identity: Ghost<SlotIdentity>,
    before: Ghost<Seq<ShmReadTopologyGeneration>>,
}

impl View for TopologySlot {
    type V = TopologySlotView;

    closed spec fn view(&self) -> TopologySlotView {
        TopologySlotView {
            slot: self.identity@,
            history: self.before@.push(current_generation(self.cell)),
        }
    }
}

impl TopologySlot {
    /// Makes a slot that holds `initial` and has held nothing else.
    pub fn new(initial: Arc<ShmReadTopologyGeneration>) -> (slot: Self)
        ensures
            slot@.history == seq![*initial],
    {
        TopologySlot {
            cell: new_slot(initial),
            identity: Ghost(arbitrary()),
            before: Ghost(Seq::empty()),
        }
    }

    /// Pins the generation that the slot holds.
    pub fn read(&self) -> (reading: TopologyReading)
        ensures
            reading@ == self@,
    {
        TopologyReading {
            generation: load_generation(&self.cell),
            identity: Ghost(self.identity@),
            before: Ghost(self.before@),
        }
    }
}

/// A generation that was pinned in a [`TopologySlot`], with the slot and the
/// moment at which it was pinned: the history of the slot up to then. Only the
/// slot itself hands one out.
pub struct TopologyReading {
    generation: Arc<ShmReadTopologyGeneration>,
    identity: Ghost<SlotIdentity>,
    before: Ghost<Seq<ShmReadTopologyGeneration>>,
}

impl View for TopologyReading {
    type V = TopologySlotView;

    closed spec fn view(&self) -> TopologySlotView {
        TopologySlotView { slot: self.identity@, history: self.before@.push(*self.generation) }
    }
}

impl TopologyReading {
    /// Returns the pinned generation: the last of the history.
    pub fn into_generation(self) -> (generation: Arc<ShmReadTopologyGeneration>)
        ensures
            self@.history.len() > 0,
            *generation == self@.history.last(),
    {
        self.generation
    }
}

/// A lease that was granted through a [`PlaneSession`].
pub struct PlaneLease<L> {
    lease: L,
    path: Ghost<ShmPath>,
}

/// What a [`PlaneLease`] consists of.
pub struct PlaneLeaseView<L> {
    /// What the plane access handed out.
    pub lease: L,
    /// The plane that it holds.
    pub path: ShmPath,
}

impl<L> View for PlaneLease<L> {
    type V = PlaneLeaseView<L>;

    closed spec fn view(&self) -> PlaneLeaseView<L> {
        PlaneLeaseView { lease: self.lease, path: self.path@ }
    }
}

/// The leases of two planes, in the order in which they were taken.
pub type PlaneLeases<L> = (PlaneLease<L>, PlaneLease<L>);

/// The physical planes, and everything that was done with them so far.
///
/// Every request to the planes, every publication and every release goes
/// through a session, so its events are what happened, in the order in which it
/// happened.
pub struct PlaneSession<P> {
    planes: P,
    events: Ghost<Seq<PlaneEvent>>,
}

/// What a [`PlaneSession`] consists of.
pub struct PlaneSessionView<P> {
    /// The physical planes.
    pub planes: P,
    /// What was done so far, the earliest first.
    pub events: Seq<PlaneEvent>,
}

impl<P> View for PlaneSession<P> {
    type V = PlaneSessionView<P>;

    closed spec fn view(&self) -> PlaneSessionView<P> {
        PlaneSessionView { planes: self.planes, events: self.events@ }
    }
}

impl<P: ShmPlaneAccess> PlaneSession<P> {
    /// Begins a session in which nothing has been done.
    pub fn new(planes: P) -> (session: Self)
        ensures
            session@.planes == planes,
            session@.events == Seq::<PlaneEvent>::empty(),
    {
        PlaneSession { planes, events: Ghost(Seq::empty()) }
    }

    /// Asks for the shared lease of one plane.
    pub fn acquire(&mut self, path: &ShmPath) -> (reply: PortResult<PlaneLease<P::Lease>>)
        ensures
            final(self)@.planes == old(self)@.planes,
            final(self)@.events == old(self)@.events.push(
                PlaneEvent::Lease { path: *path, refusal: refusal_of(reply) },
            ),
            match reply {
                Ok(granted) => granted@.path == *path && call_ensures(
                    P::acquire,
                    (&old(self)@.planes, path),
                    Ok(granted@.lease),
                ),
                Err(error) => call_ensures(
                    P::acquire,
                    (&old(self)@.planes, path),
                    Err(error),
                ),
            },
    {
        let reply = match self.planes.acquire(path) {
            Ok(lease) => Ok(PlaneLease { lease, path: Ghost(*path) }),
            Err(error) => Err(error),
        };
        self.events = Ghost(self.events@.push(
            PlaneEvent::Lease { path: *path, refusal: refusal_of(reply) },
        ));
        reply
    }

    /// Checks the layout of the physical point plane.
    pub fn validate_point_layout(
        &mut self,
        source: &ReconnectingSlotSource,
        slot_count: usize,
    ) -> (reply: PortResult<()>)
        ensures
            final(self)@.planes == old(self)@.planes,
            final(self)@.events == old(self)@.events.push(
                PlaneEvent::PointLayout {
                    source: *source,
                    slot_count,
                    refusal: refusal_of(reply),
                },
            ),
            call_ensures(
                P::validate_point_layout,
                (&old(self)@.planes, source, slot_count),
                reply,
            ),
    {
        let reply = self.planes.validate_point_layout(source, slot_count);
        self.events = Ghost(self.events@.push(
            PlaneEvent::PointLayout {
                source: *source,
                slot_count,
                refusal: refusal_of(reply),
            },
        ));
        reply
    }

    /// Checks the layout of the physical health plane.
    pub fn validate_health_layout(&mut self, reader: &ShmChannelHealthReader) -> (reply: PortResult<
        (),
    >)
        ensures
            final(self)@.planes == old(self)@.planes,
            final(self)@.events == old(self)@.events.push(
                PlaneEvent::HealthLayout { reader: *reader, refusal: refusal_of(reply) },
            ),
            call_ensures(P::validate_health_layout, (&old(self)@.planes, reader), reply),
    {
        let reply = self.planes.validate_health_layout(reader);
        self.events = Ghost(self.events@.push(
            PlaneEvent::HealthLayout { reader: *reader, refusal: refusal_of(reply) },
        ));
        reply
    }

    /// Runs one publication, which is shown the leases that cover it.
    pub fn publish<T, F: FnOnce(&PlaneLeases<P::Lease>) -> T>(
        &mut self,
        held: &PlaneLeases<P::Lease>,
        publication: F,
    ) -> (published: T)
        requires
            call_requires(publication, (held,)),
        ensures
            final(self)@.planes == old(self)@.planes,
            final(self)@.events == old(self)@.events.push(PlaneEvent::Publication),
            call_ensures(publication, (held,), published),
    {
        let published = publication(held);
        self.events = Ghost(self.events@.push(PlaneEvent::Publication));
        published
    }

    /// Replaces the generation in a slot.
    pub(crate) fn replace(
        &mut self,
        slot: &mut TopologySlot,
        generation: Arc<ShmReadTopologyGeneration>,
    )
        ensures
            final(self)@.planes == old(self)@.planes,
            final(self)@.events == old(self)@.events.push(
                PlaneEvent::Replacement {
                    slot: old(slot)@.slot,
                    before: old(slot)@.history,
                    generation: *generation,
                },
            ),
            final(slot)@.slot == old(slot)@.slot,
            final(slot)@.history == old(slot)@.history.push(*generation),
    {
        let ghost held = slot@;
        store_generation(&mut slot.cell, generation);
        slot.before = Ghost(held.history);
        self.events = Ghost(
            self.events@.push(
                PlaneEvent::Replacement {
                    slot: held.slot,
                    before: held.history,
                    generation: slot@.history.last(),
                },
            ),
        );
    }

    /// Gives a lease back: it is dropped when this returns.
    pub fn release(&mut self, lease: PlaneLease<P::Lease>)
        ensures
            final(self)@.planes == old(self)@.planes,
            final(self)@.events == old(self)@.events.push(
                PlaneEvent::Release { path: lease@.path },
            ),
    {
        let ghost path = lease@.path;
        let _given_back = lease;
        self.events = Ghost(self.events@.push(PlaneEvent::Release { path }));
    }
}

} // verus!
