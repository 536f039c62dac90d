//! What a rule reads of what the ports answer.

use crate::live_state::{RuleExecutionContext, RuleLiveState};
use crate::port::{CommandTopologyFence, PortError, PortResult};
use crate::read_session::{ChannelSession, TopologyEvent, TopologySession};
use crate::routing::{ChannelPointAddress, RoutingCache};
use crate::rule_live_state::{
    capture_execution, read_captured, read_current, read_instance_point, read_routed_point, settle,
    settle_sample, AutomationTopologyGeneration, AutomationTopologyHandle, ChannelPointValue,
    InstancePointReader, ShmChannelReader, ShmRuleLiveState,
};
use std::sync::Arc;
use vstd::prelude::*;

verus! {

/// A reply is passed on: a value is seen exactly when it was answered, and
/// absence and refusal both look absent.
pub proof fn law_reply_is_passed_on<T>(reply: PortResult<Option<T>>, found: Option<T>, value: T)
    requires
        call_ensures(settle::<T>, (reply,), found),
    ensures
        found == Some(value) <==> reply == Ok::<Option<T>, PortError>(Some(value)),
        found is None <==> reply is Err || reply == Ok::<Option<T>, PortError>(None),
{
}

/// A sample is passed on with exactly its value and exactly its time, and
/// absence and refusal both look absent.
pub proof fn law_sample_is_passed_on<V: Copy>(
    reply: PortResult<Option<ChannelPointValue<V>>>,
    reading: Option<(V, u64)>,
    sample: ChannelPointValue<V>,
    value: V,
    timestamp_ms: u64,
)
    requires
        call_ensures(settle_sample::<V>, (reply,), reading),
        call_ensures(ChannelPointValue::<V>::value, (&sample,), value),
        call_ensures(ChannelPointValue::<V>::timestamp_ms, (&sample,), timestamp_ms),
    ensures
        reply == Ok::<Option<ChannelPointValue<V>>, PortError>(Some(sample)) ==> reading == Some(
            (value, timestamp_ms),
        ),
        reading is None <==> reply is Err || reply == Ok::<
            Option<ChannelPointValue<V>>,
            PortError,
        >(None),
{
}

/// The reader answers `sample` for the point at `address`, and nothing else.
pub open spec fn answers_sample<V, R: ShmChannelReader<V>>(
    reader: &R,
    address: ChannelPointAddress,
    sample: ChannelPointValue<V>,
) -> bool {
    forall|reply: PortResult<Option<ChannelPointValue<V>>>| #[trigger]
        call_ensures(
            R::read_channel,
            (reader, address.channel_id, address.kind, address.point_id),
            reply,
        ) ==> reply == Ok::<Option<ChannelPointValue<V>>, PortError>(Some(sample))
}

/// The reader answers no sample for the point at `address`.
pub open spec fn answers_no_sample<V, R: ShmChannelReader<V>>(
    reader: &R,
    address: ChannelPointAddress,
) -> bool {
    forall|reply: PortResult<Option<ChannelPointValue<V>>>| #[trigger]
        call_ensures(
            R::read_channel,
            (reader, address.channel_id, address.kind, address.point_id),
            reply,
        ) ==> reply is Err || reply == Ok::<Option<ChannelPointValue<V>>, PortError>(None)
}

/// A routed point is read with exactly the value and the time of the sample that
/// the reader answers at the resolved address. Where the reader answers none,
/// or nothing is routed, nothing is read. The reader is asked once for that
/// address, or not at all.
pub proof fn law_routed_point_is_read<V: Copy, R: ShmChannelReader<V>>(
    session: &mut ChannelSession<'_, R>,
    cache: &RoutingCache,
    instance_id: u32,
    instance_type: u8,
    point_id: u32,
    address: Option<ChannelPointAddress>,
    sample: ChannelPointValue<V>,
    value: V,
    timestamp_ms: u64,
    reading: Option<(V, u64)>,
)
    requires
        call_ensures(RoutingCache::resolve, (cache, instance_id, instance_type, point_id), address),
        call_ensures(ChannelPointValue::<V>::value, (&sample,), value),
        call_ensures(ChannelPointValue::<V>::timestamp_ms, (&sample,), timestamp_ms),
        call_ensures(
            read_routed_point::<V, R>,
            (session, cache, instance_id, instance_type, point_id),
            reading,
        ),
    ensures
        final(session)@.reader == old(session)@.reader,
        address is None ==> reading is None && final(session)@.asked == old(session)@.asked,
        address matches Some(asked) ==> {
            &&& final(session)@.asked == old(session)@.asked.push(asked)
            &&& answers_sample(&old(session)@.reader, asked, sample) ==> reading == Some(
                (value, timestamp_ms),
            )
            &&& answers_no_sample::<V, R>(&old(session)@.reader, asked) ==> reading is None
        },
{
    if let Some(asked) = address {
        assert(old(session)@.asked + seq![asked] =~= old(session)@.asked.push(asked));
    } else {
        assert(old(session)@.asked + Seq::<ChannelPointAddress>::empty() =~= old(session)@.asked);
    }
}

/// A point that is read through a routing snapshot has exactly the value and the
/// time of the sample that the reader answers at the resolved address. Where
/// the reader answers none, or nothing is routed, nothing is read.
pub proof fn law_instance_point_is_read<V: Copy, R: ShmChannelReader<V>>(
    reader: &R,
    cache: &RoutingCache,
    instance_id: u32,
    instance_type: u8,
    point_id: u32,
    address: Option<ChannelPointAddress>,
    sample: ChannelPointValue<V>,
    value: V,
    timestamp_ms: u64,
    reading: Option<(V, u64)>,
)
    requires
        call_ensures(RoutingCache::resolve, (cache, instance_id, instance_type, point_id), address),
        call_ensures(ChannelPointValue::<V>::value, (&sample,), value),
        call_ensures(ChannelPointValue::<V>::timestamp_ms, (&sample,), timestamp_ms),
        call_ensures(
            read_instance_point::<V, R>,
            (reader, cache, instance_id, instance_type, point_id),
            reading,
        ),
    ensures
        address is None ==> reading is None,
        address matches Some(asked) ==> {
            &&& answers_sample(reader, asked, sample) ==> reading == Some((value, timestamp_ms))
            &&& answers_no_sample::<V, R>(reader, asked) ==> reading is None
        },
{
}

/// What is read through a routing snapshot was answered: there is an answer of
/// the reader at the resolved address with the value and the time that are
/// read, or one without a sample where nothing is read.
pub proof fn law_instance_point_was_answered<V: Copy, R: ShmChannelReader<V>>(
    reader: &R,
    cache: &RoutingCache,
    instance_id: u32,
    instance_type: u8,
    point_id: u32,
    address: ChannelPointAddress,
    reading: Option<(V, u64)>,
)
    requires
        call_ensures(
            RoutingCache::resolve,
            (cache, instance_id, instance_type, point_id),
            Some(address),
        ),
        call_ensures(
            read_instance_point::<V, R>,
            (reader, cache, instance_id, instance_type, point_id),
            reading,
        ),
    ensures
        exists|reply: PortResult<Option<ChannelPointValue<V>>>|
            {
                &&& #[trigger] call_ensures(
                    R::read_channel,
                    (reader, address.channel_id, address.kind, address.point_id),
                    reply,
                )
                &&& match reply {
                    Ok(Some(sample)) => reading is Some && forall|value: V, timestamp_ms: u64|
                        (#[trigger] call_ensures(ChannelPointValue::<V>::value, (&sample,), value))
                            && (#[trigger] call_ensures(
                            ChannelPointValue::<V>::timestamp_ms,
                            (&sample,),
                            timestamp_ms,
                        )) ==> reading == Some((value, timestamp_ms)),
                    Ok(None) => reading is None,
                    Err(_) => reading is None,
                }
            },
{
    let reply = choose|reply: PortResult<Option<ChannelPointValue<V>>>|
        {
            &&& #[trigger] call_ensures(
                R::read_channel,
                (reader, address.channel_id, address.kind, address.point_id),
                reply,
            )
            &&& reading == crate::rule_live_state::sample_reading(reply)
        };
    assert(call_ensures(
        R::read_channel,
        (reader, address.channel_id, address.kind, address.point_id),
        reply,
    ));
}

/// Over a bare reader executions begin without a fence, and under any context,
/// or without one, a point is read with exactly the value and the time of the
/// sample that the reader answers at the resolved address.
pub proof fn law_bare_reader_is_read<V: Copy, H: AutomationTopologyHandle<V>, R: ShmChannelReader<V>>(
    reader: Arc<R>,
    cache: Arc<RoutingCache>,
    state: ShmRuleLiveState<H, R>,
    begun: RuleExecutionContext,
    fence: Option<CommandTopologyFence>,
    execution: RuleExecutionContext,
    instance_id: u32,
    instance_type: u8,
    point_id: u32,
    address: Option<ChannelPointAddress>,
    sample: ChannelPointValue<V>,
    value: V,
    timestamp_ms: u64,
    plain: Option<(V, u64)>,
    fenced: Option<(V, u64)>,
)
    requires
        call_ensures(ShmRuleLiveState::<H, R>::new, (reader, cache), state),
        call_ensures(
            <ShmRuleLiveState<H, R> as RuleLiveState<V>>::begin_execution,
            (&state,),
            begun,
        ),
        call_ensures(RuleExecutionContext::command_topology_fence, (begun,), fence),
        call_ensures(RoutingCache::resolve, (&*cache, instance_id, instance_type, point_id), address),
        call_ensures(ChannelPointValue::<V>::value, (&sample,), value),
        call_ensures(ChannelPointValue::<V>::timestamp_ms, (&sample,), timestamp_ms),
        call_ensures(
            <ShmRuleLiveState<H, R> as RuleLiveState<V>>::get_instance,
            (&state, instance_id, instance_type, point_id),
            plain,
        ),
        call_ensures(
            <ShmRuleLiveState<H, R> as RuleLiveState<V>>::get_instance_for_execution,
            (&state, execution, instance_id, instance_type, point_id),
            fenced,
        ),
    ensures
        fence is None,
        address is None ==> plain is None && fenced is None,
        address matches Some(asked) ==> {
            &&& answers_sample(&*reader, asked, sample) ==> {
                &&& plain == Some((value, timestamp_ms))
                &&& fenced == Some((value, timestamp_ms))
            }
            &&& answers_no_sample::<V, R>(&*reader, asked) ==> plain is None && fenced is None
        },
{
}

/// The topology stands at publications with the given sequence, and no other.
pub open spec fn stands_at<V, H: AutomationTopologyHandle<V>>(topology: &H, sequence: u64) -> bool {
    forall|generation: Arc<AutomationTopologyGeneration<H::Points>>| #[trigger]
        call_ensures(H::load, (topology,), generation) ==> generation@.sequence == sequence
}

/// Every publication that is current answers for the point as `answer` says,
/// and in no other way.
pub open spec fn points_answer<V, H: AutomationTopologyHandle<V>>(
    topology: &H,
    instance_id: u32,
    action: bool,
    point_id: u32,
    answer: PortResult<Option<(V, u64)>>,
) -> bool {
    forall|
        generation: Arc<AutomationTopologyGeneration<H::Points>>,
        reply: PortResult<Option<(V, u64)>>,
    |
        (#[trigger] call_ensures(H::load, (topology,), generation)) && (#[trigger] call_ensures(
            <H::Points as InstancePointReader<V>>::read_instance_point,
            (&generation@.points, instance_id, action, point_id),
            reply,
        )) ==> reply == answer
}

/// An execution that begins over a publication is fenced with the sequence of
/// that publication itself. The publication is pinned once.
pub proof fn law_execution_captures_the_sequence<V, H: AutomationTopologyHandle<V>>(
    session: &mut TopologySession<'_, H>,
    sequence: u64,
    context: RuleExecutionContext,
    fence: Option<CommandTopologyFence>,
)
    requires
        stands_at(&old(session)@.topology, sequence),
        call_ensures(capture_execution::<V, H>, (session,), context),
        call_ensures(RuleExecutionContext::command_topology_fence, (context,), fence),
    ensures
        fence is Some,
        forall|expected: u64| #[trigger]
            call_ensures(CommandTopologyFence::expected_sequence, (fence->0,), expected)
                ==> expected == sequence,
        final(session)@.topology == old(session)@.topology,
        final(session)@.events == old(session)@.events.push(TopologyEvent::Load { sequence }),
{
}

/// Whatever publication was current, the fence of the execution that began over
/// it expects the sequence of a publication that the topology may hand out.
pub proof fn law_execution_captures_a_publication<V, H: AutomationTopologyHandle<V>>(
    session: &mut TopologySession<'_, H>,
    context: RuleExecutionContext,
    fence: Option<CommandTopologyFence>,
    expected: u64,
)
    requires
        call_ensures(capture_execution::<V, H>, (session,), context),
        call_ensures(RuleExecutionContext::command_topology_fence, (context,), fence),
        fence matches Some(captured) ==> call_ensures(
            CommandTopologyFence::expected_sequence,
            (captured,),
            expected,
        ),
    ensures
        fence is Some,
        exists|generation: Arc<AutomationTopologyGeneration<H::Points>>|
            {
                &&& #[trigger] call_ensures(H::load, (&old(session)@.topology,), generation)
                &&& generation@.sequence == expected
            },
        final(session)@.events == old(session)@.events.push(
            TopologyEvent::Load { sequence: expected },
        ),
{
}

/// A read of the current publication gives back exactly the value and the time
/// that its points answer, and nothing where they answer none or refuse. Class
/// `0` asks for a measurement, every other class for an output. The publication
/// is pinned once and read once.
pub proof fn law_current_publication_is_read<V, H: AutomationTopologyHandle<V>>(
    session: &mut TopologySession<'_, H>,
    sequence: u64,
    instance_id: u32,
    instance_type: u8,
    point_id: u32,
    answer: PortResult<Option<(V, u64)>>,
    value: V,
    timestamp_ms: u64,
    reading: Option<(V, u64)>,
)
    requires
        stands_at(&old(session)@.topology, sequence),
        points_answer(
            &old(session)@.topology,
            instance_id,
            !(instance_type == 0),
            point_id,
            answer,
        ),
        call_ensures(
            read_current::<V, H>,
            (session, instance_id, instance_type, point_id),
            reading,
        ),
    ensures
        reading == Some((value, timestamp_ms)) <==> answer == Ok::<Option<(V, u64)>, PortError>(
            Some((value, timestamp_ms)),
        ),
        reading is None <==> answer is Err || answer == Ok::<Option<(V, u64)>, PortError>(None),
        final(session)@.topology == old(session)@.topology,
        final(session)@.events == old(session)@.events.push(TopologyEvent::Load { sequence }).push(
            TopologyEvent::Point {
                sequence,
                instance_id,
                action: !(instance_type == 0),
                point_id,
            },
        ),
{
    assert(final(session)@.events =~= old(session)@.events.push(
        TopologyEvent::Load { sequence },
    ).push(
        TopologyEvent::Point { sequence, instance_id, action: !(instance_type == 0), point_id },
    ));
}

/// A read under a context that captured the current publication gives back
/// exactly the value and the time that the publication's points answer, and
/// nothing where they answer none or refuse. The publication is pinned once and
/// read once.
pub proof fn law_captured_publication_is_read<V, H: AutomationTopologyHandle<V>>(
    session: &mut TopologySession<'_, H>,
    sequence: u64,
    fence: CommandTopologyFence,
    context: RuleExecutionContext,
    instance_id: u32,
    instance_type: u8,
    point_id: u32,
    answer: PortResult<Option<(V, u64)>>,
    value: V,
    timestamp_ms: u64,
    reading: Option<(V, u64)>,
)
    requires
        stands_at(&old(session)@.topology, sequence),
        points_answer(
            &old(session)@.topology,
            instance_id,
            !(instance_type == 0),
            point_id,
            answer,
        ),
        call_ensures(CommandTopologyFence::new, (sequence,), fence),
        call_ensures(RuleExecutionContext::topology_fenced, (fence,), context),
        call_ensures(
            read_captured::<V, H>,
            (session, context, instance_id, instance_type, point_id),
            reading,
        ),
    ensures
        reading == Some((value, timestamp_ms)) <==> answer == Ok::<Option<(V, u64)>, PortError>(
            Some((value, timestamp_ms)),
        ),
        reading is None <==> answer is Err || answer == Ok::<Option<(V, u64)>, PortError>(None),
        final(session)@.topology == old(session)@.topology,
        final(session)@.events == old(session)@.events.push(TopologyEvent::Load { sequence }).push(
            TopologyEvent::Point {
                sequence,
                instance_id,
                action: !(instance_type == 0),
                point_id,
            },
        ),
{
    assert(final(session)@.events =~= old(session)@.events.push(
        TopologyEvent::Load { sequence },
    ).push(
        TopologyEvent::Point { sequence, instance_id, action: !(instance_type == 0), point_id },
    ));
}

/// A read under a context that captured another publication gives back nothing,
/// whatever the points would answer. The current publication is pinned once and
/// not read.
pub proof fn law_other_publication_is_not_read<V, H: AutomationTopologyHandle<V>>(
    session: &mut TopologySession<'_, H>,
    sequence: u64,
    captured: u64,
    fence: CommandTopologyFence,
    context: RuleExecutionContext,
    instance_id: u32,
    instance_type: u8,
    point_id: u32,
    reading: Option<(V, u64)>,
)
    requires
        stands_at(&old(session)@.topology, sequence),
        captured != sequence,
        call_ensures(CommandTopologyFence::new, (captured,), fence),
        call_ensures(RuleExecutionContext::topology_fenced, (fence,), context),
        call_ensures(
            read_captured::<V, H>,
            (session, context, instance_id, instance_type, point_id),
            reading,
        ),
    ensures
        reading is None,
        final(session)@.topology == old(session)@.topology,
        final(session)@.events == old(session)@.events.push(TopologyEvent::Load { sequence }),
{
    assert(final(session)@.events =~= old(session)@.events.push(
        TopologyEvent::Load { sequence },
    ));
}

/// A read under a context without a fence gives back nothing, and the topology
/// is not even looked at.
pub proof fn law_unfenced_context_reads_nothing<V, H: AutomationTopologyHandle<V>>(
    session: &mut TopologySession<'_, H>,
    context: RuleExecutionContext,
    instance_id: u32,
    instance_type: u8,
    point_id: u32,
    reading: Option<(V, u64)>,
)
    requires
        call_ensures(RuleExecutionContext::unfenced, (), context),
        call_ensures(
            read_captured::<V, H>,
            (session, context, instance_id, instance_type, point_id),
            reading,
        ),
    ensures
        reading is None,
        final(session)@ == old(session)@,
{
}

/// Over the complete topology an execution carries the sequence of the
/// publication that it began over as its fence. While the topology stands
/// there, a read under it gives back exactly the value and the time that the
/// points answer, and so does a read without a context.
pub proof fn law_execution_reads_its_publication<
    V: Copy,
    H: AutomationTopologyHandle<V>,
    R: ShmChannelReader<V>,
>(
    topology: Arc<H>,
    state: ShmRuleLiveState<H, R>,
    sequence: u64,
    context: RuleExecutionContext,
    fence: Option<CommandTopologyFence>,
    instance_id: u32,
    instance_type: u8,
    point_id: u32,
    answer: PortResult<Option<(V, u64)>>,
    value: V,
    timestamp_ms: u64,
    plain: Option<(V, u64)>,
    fenced: Option<(V, u64)>,
)
    requires
        stands_at::<V, H>(&*topology, sequence),
        points_answer::<V, H>(
            &*topology,
            instance_id,
            !(instance_type == 0),
            point_id,
            answer,
        ),
        call_ensures(ShmRuleLiveState::<H, R>::from_topology, (topology,), state),
        call_ensures(
            <ShmRuleLiveState<H, R> as RuleLiveState<V>>::begin_execution,
            (&state,),
            context,
        ),
        call_ensures(RuleExecutionContext::command_topology_fence, (context,), fence),
        call_ensures(
            <ShmRuleLiveState<H, R> as RuleLiveState<V>>::get_instance,
            (&state, instance_id, instance_type, point_id),
            plain,
        ),
        call_ensures(
            <ShmRuleLiveState<H, R> as RuleLiveState<V>>::get_instance_for_execution,
            (&state, context, instance_id, instance_type, point_id),
            fenced,
        ),
    ensures
        fence is Some,
        forall|expected: u64| #[trigger]
            call_ensures(CommandTopologyFence::expected_sequence, (fence->0,), expected)
                ==> expected == sequence,
        fenced == Some((value, timestamp_ms)) <==> answer == Ok::<Option<(V, u64)>, PortError>(
            Some((value, timestamp_ms)),
        ),
        fenced is None <==> answer is Err || answer == Ok::<Option<(V, u64)>, PortError>(None),
        plain == fenced,
{
}

/// Over the complete topology a read under a context that captured another
/// publication, or none, gives back nothing.
pub proof fn law_execution_reads_no_other_publication<
    V: Copy,
    H: AutomationTopologyHandle<V>,
    R: ShmChannelReader<V>,
>(
    topology: Arc<H>,
    state: ShmRuleLiveState<H, R>,
    sequence: u64,
    context: RuleExecutionContext,
    fence: Option<CommandTopologyFence>,
    expected: u64,
    instance_id: u32,
    instance_type: u8,
    point_id: u32,
    reading: Option<(V, u64)>,
)
    requires
        stands_at::<V, H>(&*topology, sequence),
        call_ensures(ShmRuleLiveState::<H, R>::from_topology, (topology,), state),
        call_ensures(RuleExecutionContext::command_topology_fence, (context,), fence),
        fence matches Some(captured) ==> expected != sequence && call_ensures(
            CommandTopologyFence::expected_sequence,
            (captured,),
            expected,
        ),
        call_ensures(
            <ShmRuleLiveState<H, R> as RuleLiveState<V>>::get_instance_for_execution,
            (&state, context, instance_id, instance_type, point_id),
            reading,
        ),
    ensures
        reading is None,
{
}

/// What is read over the complete topology was answered: there is a publication
/// that was current, which a fenced read must have captured, and an answer of
/// its points with the value and the time that are read.
pub proof fn law_topology_reading_was_answered<
    V: Copy,
    H: AutomationTopologyHandle<V>,
    R: ShmChannelReader<V>,
>(
    topology: Arc<H>,
    state: ShmRuleLiveState<H, R>,
    context: RuleExecutionContext,
    instance_id: u32,
    instance_type: u8,
    point_id: u32,
    plain: Option<(V, u64)>,
    fenced: Option<(V, u64)>,
    plain_sample: (V, u64),
    fenced_sample: (V, u64),
)
    requires
        call_ensures(ShmRuleLiveState::<H, R>::from_topology, (topology,), state),
        call_ensures(
            <ShmRuleLiveState<H, R> as RuleLiveState<V>>::get_instance,
            (&state, instance_id, instance_type, point_id),
            plain,
        ),
        call_ensures(
            <ShmRuleLiveState<H, R> as RuleLiveState<V>>::get_instance_for_execution,
            (&state, context, instance_id, instance_type, point_id),
            fenced,
        ),
    ensures
        plain == Some(plain_sample) ==> exists|
            generation: Arc<AutomationTopologyGeneration<H::Points>>,
        |
            {
                &&& #[trigger] call_ensures(H::load, (&*topology,), generation)
                &&& call_ensures(
                    <H::Points as InstancePointReader<V>>::read_instance_point,
                    (&generation@.points, instance_id, !(instance_type == 0), point_id),
                    Ok(Some(plain_sample)),
                )
            },
        fenced == Some(fenced_sample) ==> exists|
            generation: Arc<AutomationTopologyGeneration<H::Points>>,
        |
            {
                &&& #[trigger] call_ensures(H::load, (&*topology,), generation)
                &&& context@ matches Some(captured) && captured@ == generation@.sequence
                &&& call_ensures(
                    <H::Points as InstancePointReader<V>>::read_instance_point,
                    (&generation@.points, instance_id, !(instance_type == 0), point_id),
                    Ok(Some(fenced_sample)),
                )
            },
{
}

} // verus!
