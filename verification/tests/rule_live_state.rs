//! Routing and the topology-aware live-state adapter.

use std::sync::{Arc, Mutex};

use aether_live_state::domain::{PointKind, PointType};
use aether_live_state::live_state::{RuleExecutionContext, RuleLiveState};
use aether_live_state::port::{CommandTopologyFence, PortError, PortErrorKind, PortResult};
use aether_live_state::read_session::{ChannelSession, TopologySession};
use aether_live_state::routing::{ChannelPointAddress, M2cTarget, RoutingCache};
use aether_live_state::rule_live_state::{
    capture_execution, read_captured, read_current, read_instance_point, read_routed_point, settle,
    settle_sample, AutomationTopologyGeneration, AutomationTopologyHandle, ChannelPointValue,
    InstancePointReader, ShmChannelReader, ShmRuleLiveState,
};

fn refusal() -> PortError {
    PortError::new(PortErrorKind::Unavailable, "no plane".to_string())
}

/// Answers with the channel as value and the point as time, once per call.
#[derive(Default)]
struct EchoReader {
    asked: Mutex<Vec<(u32, PointKind, u32)>>,
}

impl ShmChannelReader<f64> for EchoReader {
    fn read_channel(
        &self,
        channel_id: u32,
        kind: PointKind,
        point_id: u32,
    ) -> PortResult<Option<ChannelPointValue<f64>>> {
        self.asked.lock().unwrap().push((channel_id, kind, point_id));
        match channel_id {
            98 => Ok(None),
            99 => Err(refusal()),
            _ => Ok(Some(ChannelPointValue::new(
                f64::from(channel_id) + 0.5,
                u64::from(point_id),
            ))),
        }
    }
}

/// Points of a publication that answer with a fixed value.
struct FixedPoints {
    value: f64,
}

impl InstancePointReader<f64> for FixedPoints {
    fn read_instance_point(
        &self,
        instance_id: u32,
        action: bool,
        point_id: u32,
    ) -> PortResult<Option<(f64, u64)>> {
        match instance_id {
            98 => Ok(None),
            99 => Err(refusal()),
            _ if action => Ok(Some((-self.value, u64::from(point_id)))),
            _ => Ok(Some((self.value, u64::from(point_id)))),
        }
    }
}

struct Topology {
    current: Mutex<Arc<AutomationTopologyGeneration<FixedPoints>>>,
    loads: Mutex<Vec<u64>>,
}

impl Topology {
    fn at(sequence: u64, value: f64) -> Arc<Self> {
        Arc::new(Topology {
            current: Mutex::new(Arc::new(AutomationTopologyGeneration::new(
                sequence,
                FixedPoints { value },
            ))),
            loads: Mutex::default(),
        })
    }

    fn advance(&self, sequence: u64, value: f64) {
        *self.current.lock().unwrap() = Arc::new(AutomationTopologyGeneration::new(
            sequence,
            FixedPoints { value },
        ));
    }
}

impl AutomationTopologyHandle<f64> for Topology {
    type Points = FixedPoints;

    fn load(&self) -> Arc<AutomationTopologyGeneration<FixedPoints>> {
        let current = Arc::clone(&self.current.lock().unwrap());
        self.loads.lock().unwrap().push(current.sequence());
        current
    }
}

type State = ShmRuleLiveState<Topology, EchoReader>;

fn target(channel_id: u32, point_type: PointType, point_id: u32) -> M2cTarget {
    M2cTarget {
        channel_id,
        point_type,
        point_id,
    }
}

fn routes() -> RoutingCache {
    let mut cache = RoutingCache::new();
    cache.set_c2m_reverse(9, 1, (20, PointType::Telemetry, 30));
    cache.set_c2m_reverse(9, 2, (21, PointType::Signal, 31));
    cache.set_c2m_reverse(9, 3, (22, PointType::Control, 32));
    cache.set_c2m_reverse(9, 4, (23, PointType::Adjustment, 33));
    cache.set_c2m_reverse(9, 5, (98, PointType::Telemetry, 34));
    cache.set_c2m_reverse(9, 6, (99, PointType::Telemetry, 35));
    cache.set_m2c(9, PointType::Control, 1, target(40, PointType::Control, 50));
    cache.set_m2c(9, PointType::Adjustment, 1, target(41, PointType::Adjustment, 51));
    cache.set_m2c(9, PointType::Adjustment, 2, target(42, PointType::Adjustment, 52));
    cache.set_m2c(9, PointType::Control, 3, target(43, PointType::Telemetry, 53));
    cache.set_m2c(9, PointType::Adjustment, 3, target(44, PointType::Adjustment, 54));
    cache.set_m2c(9, PointType::Telemetry, 7, target(45, PointType::Control, 55));
    cache.set_m2c(9, PointType::Control, 8, target(46, PointType::Signal, 56));
    cache
}

fn address(channel_id: u32, kind: PointKind, point_id: u32) -> Option<ChannelPointAddress> {
    Some(ChannelPointAddress {
        channel_id,
        kind,
        point_id,
    })
}

#[test]
fn measurements_resolve_through_their_source() {
    let cache = routes();
    assert_eq!(cache.resolve(9, 0, 1), address(20, PointKind::Telemetry, 30));
    assert_eq!(cache.resolve(9, 0, 2), address(21, PointKind::Status, 31));
    assert_eq!(cache.resolve(9, 0, 3), None);
    assert_eq!(cache.resolve(9, 0, 4), None);
    assert_eq!(cache.resolve(9, 0, 7), None);
    assert_eq!(cache.resolve(8, 0, 1), None);
    assert_eq!(
        cache.lookup_c2m_reverse(9, 2),
        Some((21, PointType::Signal, 31))
    );
}

#[test]
fn outputs_resolve_to_their_discrete_target_first() {
    let cache = routes();
    for class in [1, 2, u8::MAX] {
        assert_eq!(cache.resolve(9, class, 1), address(40, PointKind::Command, 50));
        assert_eq!(cache.resolve(9, class, 2), address(42, PointKind::Action, 52));
        // A discrete route to a measured class hides the analogue route.
        assert_eq!(cache.resolve(9, class, 3), None);
        assert_eq!(cache.resolve(9, class, 7), None);
        assert_eq!(cache.resolve(9, class, 8), None);
        assert_eq!(cache.resolve(9, class, 6), None);
    }
    assert_eq!(
        cache.lookup_m2c_by_parts(9, PointType::Telemetry, 7),
        Some(target(45, PointType::Control, 55))
    );
    assert_eq!(cache.lookup_m2c_by_parts(9, PointType::Signal, 7), None);
}

#[test]
fn a_later_route_replaces_the_earlier() {
    let mut cache = routes();
    cache.set_c2m_reverse(9, 1, (60, PointType::Signal, 61));
    cache.set_m2c(9, PointType::Control, 1, target(62, PointType::Adjustment, 63));
    assert_eq!(cache.resolve(9, 0, 1), address(60, PointKind::Status, 61));
    assert_eq!(cache.resolve(9, 1, 1), address(62, PointKind::Action, 63));
    assert_eq!(cache.resolve(9, 0, 2), address(21, PointKind::Status, 31));
}

#[test]
fn a_bare_reader_is_asked_for_the_resolved_point_only() {
    let reader = EchoReader::default();
    let cache = routes();
    assert_eq!(
        read_instance_point(&reader, &cache, 9, 0, 1),
        Some((20.5, 30))
    );
    assert_eq!(
        read_instance_point(&reader, &cache, 9, 1, 2),
        Some((42.5, 52))
    );
    assert_eq!(read_instance_point(&reader, &cache, 9, 0, 3), None);
    assert_eq!(read_instance_point(&reader, &cache, 9, 0, 5), None);
    assert_eq!(read_instance_point(&reader, &cache, 9, 0, 6), None);
    assert_eq!(
        *reader.asked.lock().unwrap(),
        vec![
            (20, PointKind::Telemetry, 30),
            (42, PointKind::Action, 52),
            (98, PointKind::Telemetry, 34),
            (99, PointKind::Telemetry, 35),
        ]
    );
}

#[test]
fn replies_settle_to_what_a_rule_sees() {
    assert_eq!(settle(Ok(Some(3))), Some(3));
    assert_eq!(settle::<u8>(Ok(None)), None);
    assert_eq!(settle::<u8>(Err(refusal())), None);
    assert_eq!(
        settle_sample(Ok(Some(ChannelPointValue::new(1.5, 2)))),
        Some((1.5, 2))
    );
    assert_eq!(settle_sample::<f64>(Ok(None)), None);
    assert_eq!(settle_sample::<f64>(Err(refusal())), None);
}

#[test]
fn the_bare_adapter_is_unfenced_and_ignores_the_context() {
    let state: State = ShmRuleLiveState::new(Arc::new(EchoReader::default()), Arc::new(routes()));
    assert_eq!(state.begin_execution(), RuleExecutionContext::unfenced());
    let fenced = RuleExecutionContext::topology_fenced(CommandTopologyFence::new(77));
    for context in [RuleExecutionContext::unfenced(), fenced] {
        assert_eq!(
            state.get_instance_for_execution(context, 9, 0, 1),
            Some((20.5, 30))
        );
        assert_eq!(state.get_instance_for_execution(context, 9, 0, 3), None);
    }
    assert_eq!(state.get_instance(9, 5, 1), Some((40.5, 50)));
}

#[test]
fn an_execution_reads_its_own_publication_only() {
    let topology = Topology::at(5, 1.25);
    let state: State = ShmRuleLiveState::from_topology(Arc::clone(&topology));
    let context = state.begin_execution();
    assert_eq!(
        context.command_topology_fence(),
        Some(CommandTopologyFence::new(5))
    );
    assert_eq!(
        state.get_instance_for_execution(context, 9, 0, 4),
        Some((1.25, 4))
    );
    assert_eq!(
        state.get_instance_for_execution(context, 9, 2, 4),
        Some((-1.25, 4))
    );
    assert_eq!(
        state.get_instance_for_execution(RuleExecutionContext::unfenced(), 9, 0, 4),
        None
    );

    // One load for each of the three calls that looked, none for the unfenced.
    assert_eq!(*topology.loads.lock().unwrap(), vec![5, 5, 5]);

    topology.advance(6, 2.5);
    assert_eq!(state.get_instance_for_execution(context, 9, 0, 4), None);
    assert_eq!(state.get_instance(9, 0, 4), Some((2.5, 4)));
    let renewed = state.begin_execution();
    assert_eq!(
        renewed.command_topology_fence(),
        Some(CommandTopologyFence::new(6))
    );
    assert_eq!(
        state.get_instance_for_execution(renewed, 9, 0, 4),
        Some((2.5, 4))
    );
}

#[test]
fn a_refused_topology_read_looks_absent() {
    let state: State = ShmRuleLiveState::from_topology(Topology::at(5, 1.25));
    let context = state.begin_execution();
    for instance in [98, 99] {
        assert_eq!(state.get_instance(instance, 0, 4), None);
        assert_eq!(state.get_instance_for_execution(context, instance, 0, 4), None);
    }
}

#[test]
fn a_session_reads_for_the_context_that_captured_the_publication() {
    let generation = AutomationTopologyGeneration::new(5, FixedPoints { value: 1.25 });
    assert_eq!(generation.sequence(), 5);
    assert_eq!(
        generation.read_instance_point(9, true, 4),
        Ok(Some((-1.25, 4)))
    );

    let topology = Topology::at(5, 1.25);
    let mut session = TopologySession::new(&*topology);
    let captured = capture_execution::<f64, Topology>(&mut session);
    assert_eq!(
        captured,
        RuleExecutionContext::topology_fenced(CommandTopologyFence::new(5))
    );
    let stale = RuleExecutionContext::topology_fenced(CommandTopologyFence::new(4));
    assert_eq!(
        read_captured(&mut session, captured, 9, 1, 4),
        Some((-1.25, 4))
    );
    assert_eq!(read_captured::<f64, _>(&mut session, stale, 9, 1, 4), None);
    assert_eq!(
        read_captured::<f64, _>(&mut session, RuleExecutionContext::unfenced(), 9, 1, 4),
        None
    );
    assert_eq!(read_current(&mut session, 9, 0, 4), Some((1.25, 4)));
    let pinned = session.load::<f64>();
    topology.advance(6, 2.5);
    assert_eq!(pinned.sequence(), 5);
    assert_eq!(
        session.read_point(&pinned, 9, false, 4),
        Ok(Some((1.25, 4)))
    );
    assert_eq!(session.load::<f64>().sequence(), 6);
    assert_eq!(topology.loads.lock().unwrap().len(), 6);
}

#[test]
fn a_session_asks_for_a_routed_point_once_and_for_an_unrouted_one_never() {
    let reader = EchoReader::default();
    let cache = routes();
    let mut session = ChannelSession::new(&reader);
    assert_eq!(
        read_routed_point(&mut session, &cache, 9, 0, 2),
        Some((21.5, 31))
    );
    assert_eq!(read_routed_point(&mut session, &cache, 9, 0, 7), None);
    assert_eq!(
        *reader.asked.lock().unwrap(),
        vec![(21, PointKind::Status, 31)]
    );
}
