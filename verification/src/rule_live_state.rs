//! Composition adapter for authoritative rule live-state reads.

use crate::domain::PointKind;
use crate::live_state::{RuleExecutionContext, RuleLiveState};
use crate::port::{CommandTopologyFence, PortResult};
use crate::read_session::{ChannelSession, TopologyEvent, TopologySession};
use crate::routing::{ChannelPointAddress, RoutingCache};
use std::sync::Arc;
use vstd::prelude::*;

verus! {

/// One sample of a physical channel point.
#[derive(Debug, Clone, Copy, PartialEq, Eq)]
pub struct ChannelPointValue<V> {
    value: V,
    timestamp_ms: u64,
}

impl<V> View for ChannelPointValue<V> {
    type V = (V, u64);

    closed spec fn view(&self) -> (V, u64) {
        (self.value, self.timestamp_ms)
    }
}

impl<V: Copy> ChannelPointValue<V> {
    /// Pairs a value with the time at which it was sampled.
    pub fn new(value: V, timestamp_ms: u64) -> (sample: Self)
        ensures
            sample@ == (value, timestamp_ms),
    {
        ChannelPointValue { value, timestamp_ms }
    }

    /// Returns the sampled value.
    pub fn value(&self) -> (value: V)
        ensures
            value == self@.0,
    {
        self.value
    }

    /// Returns the sample time in milliseconds.
    pub fn timestamp_ms(&self) -> (timestamp_ms: u64)
        ensures
            timestamp_ms == self@.1,
    {
        self.timestamp_ms
    }
}

/// Reads physical channel points from the current shared-memory generation.
/// Nothing is promised of what comes back.
pub trait ShmChannelReader<V>: Send + Sync {
    /// Reads one physical point. `None` means unconfigured or not written yet.
    fn read_channel(
        &self,
        channel_id: u32,
        kind: PointKind,
        point_id: u32,
    ) -> PortResult<Option<ChannelPointValue<V>>>;
}

/// Reads logical instance points within one topology publication. Nothing is
/// promised of what comes back.
pub trait InstancePointReader<V>: Send + Sync {
    /// Reads one logical point, a measurement or an output (`action`).
    fn read_instance_point(
        &self,
        instance_id: u32,
        action: bool,
        point_id: u32,
    ) -> PortResult<Option<(V, u64)>>;
}

/// Hands out the automation topology that is current at the moment of the
/// call. Nothing is promised of which one that is.
pub trait AutomationTopologyHandle<V>: Send + Sync {
    /// Reads the points of a publication.
    type Points: InstancePointReader<V>;

    /// Pins the current publication.
    fn load(&self) -> Arc<AutomationTopologyGeneration<Self::Points>>;
}

/// One complete topology publication and its sequence.
pub struct AutomationTopologyGeneration<P> {
    sequence: u64,
    points: P,
}

/// What an [`AutomationTopologyGeneration`] consists of.
pub struct AutomationTopologyView<P> {
    /// The publication's sequence.
    pub sequence: u64,
    /// Reads the points of the publication.
    pub points: P,
}

impl<P> View for AutomationTopologyGeneration<P> {
    type V = AutomationTopologyView<P>;

    closed spec fn view(&self) -> AutomationTopologyView<P> {
        AutomationTopologyView { sequence: self.sequence, points: self.points }
    }
}

/// What a rule sees of a port reply: a refusal looks like an absent value.
pub open spec fn settled<T>(reply: PortResult<Option<T>>) -> Option<T> {
    match reply {
        Ok(found) => found,
        Err(_) => None,
    }
}

/// What a rule sees of a channel read.
pub open spec fn sample_reading<V>(reply: PortResult<Option<ChannelPointValue<V>>>) -> Option<
    (V, u64),
> {
    match settled(reply) {
        Some(sample) => Some(sample@),
        None => None,
    }
}

/// `reading` is what a rule may see of one logical point of a publication: the
/// publication's points were asked for exactly that point, and their reply is
/// passed on.
pub open spec fn generation_reading<V, P: InstancePointReader<V>>(
    generation: AutomationTopologyView<P>,
    instance_id: u32,
    action: bool,
    point_id: u32,
    reading: Option<(V, u64)>,
) -> bool {
    exists|reply: PortResult<Option<(V, u64)>>|
        {
            &&& #[trigger] call_ensures(
                P::read_instance_point,
                (&generation.points, instance_id, action, point_id),
                reply,
            )
            &&& reading == settled(reply)
        }
}

/// `reading` is what a rule may see of a publication under a captured context:
/// nothing unless the context captured exactly that publication.
pub open spec fn fenced_reading<V, P: InstancePointReader<V>>(
    generation: AutomationTopologyView<P>,
    fence: Option<CommandTopologyFence>,
    instance_id: u32,
    instance_type: u8,
    point_id: u32,
    reading: Option<(V, u64)>,
) -> bool {
    if crate::live_state::admits(fence, generation.sequence) {
        generation_reading(generation, instance_id, instance_type != 0, point_id, reading)
    } else {
        reading is None
    }
}

/// `reading` is what a rule may see of a resolved physical point: nothing is
/// read where nothing is routed, and else the reader was asked for exactly that
/// point.
pub open spec fn channel_reading<V, R: ShmChannelReader<V>>(
    reader: &R,
    address: Option<ChannelPointAddress>,
    reading: Option<(V, u64)>,
) -> bool {
    match address {
        None => reading is None,
        Some(address) => exists|reply: PortResult<Option<ChannelPointValue<V>>>|
            {
                &&& #[trigger] call_ensures(
                    R::read_channel,
                    (reader, address.channel_id, address.kind, address.point_id),
                    reply,
                )
                &&& reading == sample_reading(reply)
            },
    }
}

/// Turns a port reply into what a rule sees.
pub fn settle<T>(reply: PortResult<Option<T>>) -> (found: Option<T>)
    ensures
        found == settled(reply),
{
    match reply {
        Ok(found) => found,
        Err(_) => None,
    }
}

/// Turns the reply of a channel read into what a rule sees.
pub fn settle_sample<V: Copy>(reply: PortResult<Option<ChannelPointValue<V>>>) -> (reading: Option<
    (V, u64),
>)
    ensures
        reading == sample_reading(reply),
{
    match settle(reply) {
        Some(sample) => Some((sample.value(), sample.timestamp_ms())),
        None => None,
    }
}

impl<P> AutomationTopologyGeneration<P> {
    /// Builds the publication with the given sequence.
    pub fn new(sequence: u64, points: P) -> (generation: Self)
        ensures
            generation@.sequence == sequence,
            generation@.points == points,
    {
        AutomationTopologyGeneration { sequence, points }
    }

    /// Returns the publication's sequence.
    pub fn sequence(&self) -> (sequence: u64)
        ensures
            sequence == self@.sequence,
    {
        self.sequence
    }

    /// Reads one logical point of this publication.
    pub fn read_instance_point<V>(
        &self,
        instance_id: u32,
        action: bool,
        point_id: u32,
    ) -> (reply: PortResult<Option<(V, u64)>>) where P: InstancePointReader<V>
        ensures
            call_ensures(
                P::read_instance_point,
                (&self@.points, instance_id, action, point_id),
                reply,
            ),
    {
        self.points.read_instance_point(instance_id, action, point_id)
    }
}

/// The physical points that one resolved read asks for: its own, and none where
/// nothing is routed.
pub open spec fn channel_requests(address: Option<ChannelPointAddress>) -> Seq<
    ChannelPointAddress,
> {
    match address {
        Some(address) => seq![address],
        None => Seq::empty(),
    }
}

/// What a read of the current publication does: it is pinned once, and read
/// once.
pub open spec fn current_events(
    sequence: u64,
    instance_id: u32,
    instance_type: u8,
    point_id: u32,
) -> Seq<TopologyEvent> {
    seq![
        TopologyEvent::Load { sequence },
        TopologyEvent::Point { sequence, instance_id, action: instance_type != 0, point_id },
    ]
}

/// What a read under a fence does: the current publication is pinned once, and
/// read once only if it is the captured one.
pub open spec fn fenced_events(
    sequence: u64,
    fence: Option<CommandTopologyFence>,
    instance_id: u32,
    instance_type: u8,
    point_id: u32,
) -> Seq<TopologyEvent> {
    if crate::live_state::admits(fence, sequence) {
        current_events(sequence, instance_id, instance_type, point_id)
    } else {
        seq![TopologyEvent::Load { sequence }]
    }
}

/// Begins an execution over the complete topology: the publication that is
/// current is pinned once, and the context is fenced by it.
pub fn capture_execution<V, H: AutomationTopologyHandle<V>>(
    session: &mut TopologySession<'_, H>,
) -> (context: RuleExecutionContext)
    ensures
        final(session)@.topology == old(session)@.topology,
        exists|generation: Arc<AutomationTopologyGeneration<H::Points>>|
            {
                &&& #[trigger] call_ensures(H::load, (&old(session)@.topology,), generation)
                &&& crate::live_state::admits(context@, generation@.sequence)
                &&& final(session)@.events == old(session)@.events.push(
                    TopologyEvent::Load { sequence: generation@.sequence },
                )
            },
{
    let pinned = session.load::<V>();
    RuleExecutionContext::topology_fenced(CommandTopologyFence::new(pinned.sequence()))
}

/// Reads one logical point of the publication that is current.
pub fn read_current<V, H: AutomationTopologyHandle<V>>(
    session: &mut TopologySession<'_, H>,
    instance_id: u32,
    instance_type: u8,
    point_id: u32,
) -> (reading: Option<(V, u64)>)
    ensures
        final(session)@.topology == old(session)@.topology,
        exists|generation: Arc<AutomationTopologyGeneration<H::Points>>|
            {
                &&& #[trigger] call_ensures(H::load, (&old(session)@.topology,), generation)
                &&& generation_reading(
                    generation@,
                    instance_id,
                    instance_type != 0,
                    point_id,
                    reading,
                )
                &&& final(session)@.events == old(session)@.events + current_events(
                    generation@.sequence,
                    instance_id,
                    instance_type,
                    point_id,
                )
            },
{
    let ghost before = session@.events;
    let pinned = session.load::<V>();
    let reading = settle(
        session.read_point::<V, H::Points>(&pinned, instance_id, instance_type != 0, point_id),
    );
    assert(session@.events =~= before + current_events(
        pinned@@.sequence,
        instance_id,
        instance_type,
        point_id,
    ));
    reading
}

/// Reads one logical point for an execution, which must have captured the
/// publication that is current. An unfenced execution does not even look.
pub fn read_captured<V, H: AutomationTopologyHandle<V>>(
    session: &mut TopologySession<'_, H>,
    execution: RuleExecutionContext,
    instance_id: u32,
    instance_type: u8,
    point_id: u32,
) -> (reading: Option<(V, u64)>)
    ensures
        final(session)@.topology == old(session)@.topology,
        execution@ is None ==> reading is None && final(session)@ == old(session)@,
        execution@ is Some ==> exists|generation: Arc<AutomationTopologyGeneration<H::Points>>|
            {
                &&& #[trigger] call_ensures(H::load, (&old(session)@.topology,), generation)
                &&& fenced_reading(
                    generation@,
                    execution@,
                    instance_id,
                    instance_type,
                    point_id,
                    reading,
                )
                &&& final(session)@.events == old(session)@.events + fenced_events(
                    generation@.sequence,
                    execution@,
                    instance_id,
                    instance_type,
                    point_id,
                )
            },
{
    let ghost before = session@.events;
    if execution.command_topology_fence().is_none() {
        return None;
    }
    let pinned = session.load::<V>();
    if !execution.captured(pinned.sequence()) {
        assert(session@.events =~= before + fenced_events(
            pinned@@.sequence,
            execution@,
            instance_id,
            instance_type,
            point_id,
        ));
        return None;
    }
    let reading = settle(
        session.read_point::<V, H::Points>(&pinned, instance_id, instance_type != 0, point_id),
    );
    assert(session@.events =~= before + fenced_events(
        pinned@@.sequence,
        execution@,
        instance_id,
        instance_type,
        point_id,
    ));
    reading
}

/// Resolves one logical instance point and reads the resulting physical address
/// through the session: once where it is routed, and not at all where it is
/// not.
pub fn read_routed_point<V: Copy, R: ShmChannelReader<V>>(
    session: &mut ChannelSession<'_, R>,
    routing_cache: &RoutingCache,
    instance_id: u32,
    instance_type: u8,
    point_id: u32,
) -> (reading: Option<(V, u64)>)
    ensures
        final(session)@.reader == old(session)@.reader,
        final(session)@.asked == old(session)@.asked + channel_requests(
            crate::routing::resolved(routing_cache@, instance_id, instance_type, point_id),
        ),
        channel_reading(
            &old(session)@.reader,
            crate::routing::resolved(routing_cache@, instance_id, instance_type, point_id),
            reading,
        ),
{
    let ghost before = session@.asked;
    match routing_cache.resolve(instance_id, instance_type, point_id) {
        Some(address) => {
            let reading = settle_sample(session.read_channel(address));
            assert(session@.asked =~= before + channel_requests(Some(address)));
            reading
        },
        None => {
            assert(session@.asked =~= before + channel_requests(None));
            None
        },
    }
}

/// Resolves one logical instance point through the service-owned routing cache
/// and reads the resulting physical channel address.
pub fn read_instance_point<V: Copy, R: ShmChannelReader<V>>(
    reader: &R,
    routing_cache: &RoutingCache,
    instance_id: u32,
    instance_type: u8,
    point_id: u32,
) -> (reading: Option<(V, u64)>)
    ensures
        channel_reading(
            reader,
            crate::routing::resolved(routing_cache@, instance_id, instance_type, point_id),
            reading,
        ),
{
    read_routed_point(
        &mut ChannelSession::new(reader),
        routing_cache,
        instance_id,
        instance_type,
        point_id,
    )
}

/// Where a [`ShmRuleLiveState`] reads from.
pub enum RuleLiveSource<H, R> {
    /// The atomically replaceable complete topology.
    Runtime(Arc<H>),
    /// A bare channel reader with a routing snapshot.
    Legacy {
        /// Reads the physical points.
        reader: Arc<R>,
        /// Resolves the logical points.
        routing_cache: Arc<RoutingCache>,
    },
}

/// `context` is one that an execution over `source` may begin with: over the
/// complete topology it is fenced by the publication that was current, over a
/// bare reader it is unfenced.
pub open spec fn source_context<V, H: AutomationTopologyHandle<V>, R>(
    source: RuleLiveSource<H, R>,
    context: RuleExecutionContext,
) -> bool {
    match source {
        RuleLiveSource::Runtime(topology) => exists|
            generation: Arc<AutomationTopologyGeneration<H::Points>>,
        |
            {
                &&& #[trigger] call_ensures(H::load, (&*topology,), generation)
                &&& crate::live_state::admits(context@, generation@.sequence)
            },
        RuleLiveSource::Legacy { .. } => context@ is None,
    }
}

/// `reading` is what a read without a context may return over `source`.
pub open spec fn source_reading<V, H: AutomationTopologyHandle<V>, R: ShmChannelReader<V>>(
    source: RuleLiveSource<H, R>,
    instance_id: u32,
    instance_type: u8,
    point_id: u32,
    reading: Option<(V, u64)>,
) -> bool {
    match source {
        RuleLiveSource::Runtime(topology) => exists|
            generation: Arc<AutomationTopologyGeneration<H::Points>>,
        |
            {
                &&& #[trigger] call_ensures(H::load, (&*topology,), generation)
                &&& generation_reading(
                    generation@,
                    instance_id,
                    instance_type != 0,
                    point_id,
                    reading,
                )
            },
        RuleLiveSource::Legacy { reader, routing_cache } => channel_reading(
            &*reader,
            crate::routing::resolved(routing_cache@, instance_id, instance_type, point_id),
            reading,
        ),
    }
}

/// `reading` is what a read under a captured context may return over `source`.
pub open spec fn execution_reading<V, H: AutomationTopologyHandle<V>, R: ShmChannelReader<V>>(
    source: RuleLiveSource<H, R>,
    fence: Option<CommandTopologyFence>,
    instance_id: u32,
    instance_type: u8,
    point_id: u32,
    reading: Option<(V, u64)>,
) -> bool {
    match source {
        RuleLiveSource::Runtime(topology) => {
            if fence is None {
                reading is None
            } else {
                exists|generation: Arc<AutomationTopologyGeneration<H::Points>>|
                    {
                        &&& #[trigger] call_ensures(H::load, (&*topology,), generation)
                        &&& fenced_reading(
                            generation@,
                            fence,
                            instance_id,
                            instance_type,
                            point_id,
                            reading,
                        )
                    }
            }
        },
        RuleLiveSource::Legacy { reader, routing_cache } => channel_reading(
            &*reader,
            crate::routing::resolved(routing_cache@, instance_id, instance_type, point_id),
            reading,
        ),
    }
}

/// Rule live-state adapter backed by the current shared-memory generation and
/// routing snapshot owned by the service that composes it.
pub struct ShmRuleLiveState<H, R> {
    source: RuleLiveSource<H, R>,
}

impl<H, R> View for ShmRuleLiveState<H, R> {
    type V = RuleLiveSource<H, R>;

    closed spec fn view(&self) -> RuleLiveSource<H, R> {
        self.source
    }
}

impl<H, R> ShmRuleLiveState<H, R> {
    /// Creates a read-only rule input over the current reader and routing
    /// snapshot.
    #[must_use]
    pub fn new(reader: Arc<R>, routing_cache: Arc<RoutingCache>) -> (state: Self)
        ensures
            state@ == (RuleLiveSource::<H, R>::Legacy { reader, routing_cache }),
    {
        ShmRuleLiveState { source: RuleLiveSource::Legacy { reader, routing_cache } }
    }

    /// Creates a production adapter over the atomically replaceable complete
    /// topology.
    #[must_use]
    pub fn from_topology(topology: Arc<H>) -> (state: Self)
        ensures
            state@ == RuleLiveSource::<H, R>::Runtime(topology),
    {
        ShmRuleLiveState { source: RuleLiveSource::Runtime(topology) }
    }
}

impl<V: Copy, H: AutomationTopologyHandle<V>, R: ShmChannelReader<V>> RuleLiveState<
    V,
> for ShmRuleLiveState<H, R> {
    fn begin_execution(&self) -> (context: RuleExecutionContext)
        ensures
            source_context(self@, context),
    {
        match &self.source {
            RuleLiveSource::Runtime(topology) => capture_execution::<V, H>(
                &mut TopologySession::new(&**topology),
            ),
            RuleLiveSource::Legacy { .. } => RuleExecutionContext::unfenced(),
        }
    }

    fn get_instance(
        &self,
        instance_id: u32,
        instance_type: u8,
        point_id: u32,
    ) -> (reading: Option<(V, u64)>)
        ensures
            source_reading(self@, instance_id, instance_type, point_id, reading),
    {
        match &self.source {
            RuleLiveSource::Runtime(topology) => read_current(
                &mut TopologySession::new(&**topology),
                instance_id,
                instance_type,
                point_id,
            ),
            RuleLiveSource::Legacy { reader, routing_cache } => read_instance_point(
                &**reader,
                routing_cache,
                instance_id,
                instance_type,
                point_id,
            ),
        }
    }

    fn get_instance_for_execution(
        &self,
        execution: RuleExecutionContext,
        instance_id: u32,
        instance_type: u8,
        point_id: u32,
    ) -> (reading: Option<(V, u64)>)
        ensures
            execution_reading(
                self@,
                execution@,
                instance_id,
                instance_type,
                point_id,
                reading,
            ),
    {
        match &self.source {
            RuleLiveSource::Runtime(topology) => read_captured(
                &mut TopologySession::new(&**topology),
                execution,
                instance_id,
                instance_type,
                point_id,
            ),
            RuleLiveSource::Legacy { reader, routing_cache } => read_instance_point(
                &**reader,
                routing_cache,
                instance_id,
                instance_type,
                point_id,
            ),
        }
    }
}

/// Over the complete topology an execution without a fence reads nothing.
pub proof fn law_unfenced_execution_reads_nothing<
    V,
    H: AutomationTopologyHandle<V>,
    R: ShmChannelReader<V>,
>(
    source: RuleLiveSource<H, R>,
    instance_id: u32,
    instance_type: u8,
    point_id: u32,
    reading: Option<(V, u64)>,
)
    requires
        source is Runtime,
        execution_reading(source, None, instance_id, instance_type, point_id, reading),
    ensures
        reading is None,
{
}

/// Once the topology has moved on from the publication that an execution
/// captured, the execution reads nothing.
pub proof fn law_stale_execution_reads_nothing<
    V,
    H: AutomationTopologyHandle<V>,
    R: ShmChannelReader<V>,
>(
    source: RuleLiveSource<H, R>,
    fence: Option<CommandTopologyFence>,
    instance_id: u32,
    instance_type: u8,
    point_id: u32,
    reading: Option<(V, u64)>,
)
    requires
        source matches RuleLiveSource::Runtime(topology) && forall|
            generation: Arc<AutomationTopologyGeneration<H::Points>>,
        |
            #[trigger] call_ensures(H::load, (&*topology,), generation)
                ==> !crate::live_state::admits(fence, generation@.sequence),
        execution_reading(source, fence, instance_id, instance_type, point_id, reading),
    ensures
        reading is None,
{
}

/// While the topology stays at one publication, an execution that began there
/// reads exactly what a read without a context reads.
pub proof fn law_current_execution_reads_live_state<
    V,
    H: AutomationTopologyHandle<V>,
    R: ShmChannelReader<V>,
>(
    source: RuleLiveSource<H, R>,
    context: RuleExecutionContext,
    instance_id: u32,
    instance_type: u8,
    point_id: u32,
    reading: Option<(V, u64)>,
)
    requires
        source matches RuleLiveSource::Runtime(topology) && forall|
            one: Arc<AutomationTopologyGeneration<H::Points>>,
            other: Arc<AutomationTopologyGeneration<H::Points>>,
        |
            #[trigger] call_ensures(H::load, (&*topology,), one) && #[trigger] call_ensures(
                H::load,
                (&*topology,),
                other,
            ) ==> one == other,
        source_context(source, context),
    ensures
        execution_reading(source, context@, instance_id, instance_type, point_id, reading)
            <==> source_reading(source, instance_id, instance_type, point_id, reading),
{
}

/// Over a bare reader no context changes what is read.
pub proof fn law_bare_reader_ignores_context<
    V,
    H: AutomationTopologyHandle<V>,
    R: ShmChannelReader<V>,
>(
    source: RuleLiveSource<H, R>,
    fence: Option<CommandTopologyFence>,
    instance_id: u32,
    instance_type: u8,
    point_id: u32,
    reading: Option<(V, u64)>,
)
    requires
        source is Legacy,
    ensures
        execution_reading(source, fence, instance_id, instance_type, point_id, reading)
            <==> source_reading(source, instance_id, instance_type, point_id, reading),
{
}

} // verus!
