//! Access to live points, with a record of what was read in which order.

use crate::domain::PointKind;
use crate::port::PortResult;
use crate::routing::ChannelPointAddress;
use crate::rule_live_state::{
    AutomationTopologyGeneration, AutomationTopologyHandle, ChannelPointValue, InstancePointReader,
    ShmChannelReader,
};
use std::sync::Arc;
use vstd::prelude::*;

verus! {

/// A channel reader, and every physical point that it was asked for so far.
pub struct ChannelSession<'a, R> {
    reader: &'a R,
    asked: Ghost<Seq<ChannelPointAddress>>,
}

/// What a [`ChannelSession`] consists of.
pub struct ChannelSessionView<R> {
    /// Reads the physical points.
    pub reader: R,
    /// What it was asked for, the earliest first.
    pub asked: Seq<ChannelPointAddress>,
}

impl<'a, R> View for ChannelSession<'a, R> {
    type V = ChannelSessionView<R>;

    closed spec fn view(&self) -> ChannelSessionView<R> {
        ChannelSessionView { reader: *self.reader, asked: self.asked@ }
    }
}

impl<'a, R> ChannelSession<'a, R> {
    /// Begins a session in which nothing has been asked for.
    pub fn new(reader: &'a R) -> (session: Self)
        ensures
            session@.reader == *reader,
            session@.asked == Seq::<ChannelPointAddress>::empty(),
    {
        ChannelSession { reader, asked: Ghost(Seq::empty()) }
    }

    /// Reads one physical point.
    pub fn read_channel<V>(&mut self, address: ChannelPointAddress) -> (reply: PortResult<
        Option<ChannelPointValue<V>>,
    >) where R: ShmChannelReader<V>
        ensures
            final(self)@.reader == old(self)@.reader,
            final(self)@.asked == old(self)@.asked.push(address),
            call_ensures(
                R::read_channel,
                (&old(self)@.reader, address.channel_id, address.kind, address.point_id),
                reply,
            ),
    {
        let kind: PointKind = address.kind;
        let reply = self.reader.read_channel(address.channel_id, kind, address.point_id);
        self.asked = Ghost(self.asked@.push(address));
        reply
    }
}

/// One thing that was done through a [`TopologySession`].
pub enum TopologyEvent {
    /// The current publication was pinned.
    Load {
        /// Its sequence.
        sequence: u64,
    },
    /// A logical point of a pinned publication was read.
    Point {
        /// The sequence of the publication.
        sequence: u64,
        /// The instance.
        instance_id: u32,
        /// Whether an output was read.
        action: bool,
        /// The point of the instance.
        point_id: u32,
    },
}

/// A publication that was pinned through a [`TopologySession`].
pub struct PinnedGeneration<P> {
    generation: Arc<AutomationTopologyGeneration<P>>,
}

impl<P> View for PinnedGeneration<P> {
    type V = AutomationTopologyGeneration<P>;

    closed spec fn view(&self) -> AutomationTopologyGeneration<P> {
        *self.generation
    }
}

impl<P> PinnedGeneration<P> {
    /// Returns the publication's sequence.
    pub fn sequence(&self) -> (sequence: u64)
        ensures
            sequence == self@@.sequence,
    {
        self.generation.sequence()
    }
}

/// A topology handle, and everything that was done with it so far.
pub struct TopologySession<'a, H> {
    topology: &'a H,
    events: Ghost<Seq<TopologyEvent>>,
}

/// What a [`TopologySession`] consists of.
pub struct TopologySessionView<H> {
    /// Hands out the current publication.
    pub topology: H,
    /// What was done so far, the earliest first.
    pub events: Seq<TopologyEvent>,
}

impl<'a, H> View for TopologySession<'a, H> {
    type V = TopologySessionView<H>;

    closed spec fn view(&self) -> TopologySessionView<H> {
        TopologySessionView { topology: *self.topology, events: self.events@ }
    }
}

impl<'a, H> TopologySession<'a, H> {
    /// Begins a session in which nothing has been done.
    pub fn new(topology: &'a H) -> (session: Self)
        ensures
            session@.topology == *topology,
            session@.events == Seq::<TopologyEvent>::empty(),
    {
        TopologySession { topology, events: Ghost(Seq::empty()) }
    }

    /// Pins the current publication.
    pub fn load<V>(&mut self) -> (pinned: PinnedGeneration<
        <H as AutomationTopologyHandle<V>>::Points,
    >) where H: AutomationTopologyHandle<V>
        ensures
            final(self)@.topology == old(self)@.topology,
            final(self)@.events == old(self)@.events.push(
                TopologyEvent::Load { sequence: pinned@@.sequence },
            ),
            exists|generation: Arc<AutomationTopologyGeneration<H::Points>>|
                {
                    &&& #[trigger] call_ensures(H::load, (&old(self)@.topology,), generation)
                    &&& *generation == pinned@
                },
    {
        let pinned = PinnedGeneration { generation: self.topology.load() };
        self.events = Ghost(
            self.events@.push(TopologyEvent::Load { sequence: pinned@@.sequence }),
        );
        pinned
    }

    /// Reads one logical point of a pinned publication.
    pub fn read_point<V, P: InstancePointReader<V>>(
        &mut self,
        pinned: &PinnedGeneration<P>,
        instance_id: u32,
        action: bool,
        point_id: u32,
    ) -> (reply: PortResult<Option<(V, u64)>>)
        ensures
            final(self)@.topology == old(self)@.topology,
            final(self)@.events == old(self)@.events.push(
                TopologyEvent::Point {
                    sequence: pinned@@.sequence,
                    instance_id,
                    action,
                    point_id,
                },
            ),
            call_ensures(
                P::read_instance_point,
                (&pinned@@.points, instance_id, action, point_id),
                reply,
            ),
    {
        let reply = pinned.generation.read_instance_point(instance_id, action, point_id);
        self.events = Ghost(
            self.events@.push(
                TopologyEvent::Point {
                    sequence: pinned@@.sequence,
                    instance_id,
                    action,
                    point_id,
                },
            ),
        );
        reply
    }
}

} // verus!
