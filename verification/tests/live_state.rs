//! Execution contexts and the in-process live-state adapter.

use aether_live_state::channel_health::ChannelHealthObservation;
use aether_live_state::domain::{ChannelId, TimestampMs};
use aether_live_state::live_state::{MemoryRuleLiveState, RuleExecutionContext, RuleLiveState};
use aether_live_state::port::CommandTopologyFence;

#[test]
fn memory_adapter_distinguishes_measurements_and_actions() {
    let mut state = MemoryRuleLiveState::new();
    assert!(state.set_instance(9, 0, 4, 12.5, 100));
    assert!(state.set_instance(9, 1, 4, 7.5, 101));
    assert_eq!(state.get_instance(9, 0, 4), Some((12.5, 100)));
    assert_eq!(state.get_instance(9, 1, 4), Some((7.5, 101)));
}

#[test]
fn a_later_write_replaces_the_earlier_and_touches_nothing_else() {
    let mut state = MemoryRuleLiveState::default();
    assert_eq!(state.get_instance(u32::MAX, u8::MAX, u32::MAX), None);
    assert!(state.set_instance(u32::MAX, u8::MAX, u32::MAX, 1.0, 1));
    assert!(state.set_instance(u32::MAX, u8::MAX, u32::MAX, 2.0, 2));
    assert!(state.set_instance(1, 0, 0, 3.0, 3));
    assert!(state.set_instance(0, 1, 0, 4.0, 4));
    assert!(state.set_instance(0, 0, 1, 5.0, 5));
    assert_eq!(
        state.get_instance(u32::MAX, u8::MAX, u32::MAX),
        Some((2.0, 2))
    );
    assert_eq!(state.get_instance(1, 0, 0), Some((3.0, 3)));
    assert_eq!(state.get_instance(0, 1, 0), Some((4.0, 4)));
    assert_eq!(state.get_instance(0, 0, 1), Some((5.0, 5)));
    assert_eq!(state.get_instance(0, 0, 0), None);
}

#[test]
fn a_lock_that_grants_nothing_stores_and_reads_nothing() {
    let mut state = MemoryRuleLiveState::new();
    assert!(MemoryRuleLiveState::set_guarded(
        Some(&mut state),
        9,
        0,
        4,
        12.5,
        100
    ));
    assert!(!MemoryRuleLiveState::<f64>::set_guarded(
        None, 9, 0, 4, 7.5, 101
    ));
    assert_eq!(
        MemoryRuleLiveState::get_guarded(Some(&state), 9, 0, 4),
        Some((12.5, 100))
    );
    assert_eq!(MemoryRuleLiveState::<f64>::get_guarded(None, 9, 0, 4), None);
}

#[test]
fn a_context_hands_out_the_fence_it_captured() {
    let fence = CommandTopologyFence::new(41);
    let fenced = RuleExecutionContext::topology_fenced(fence);
    assert_eq!(fenced.command_topology_fence(), Some(fence));
    assert_eq!(fence.expected_sequence(), 41);
    assert!(fenced.captured(41));
    assert!(!fenced.captured(42));

    let unfenced = RuleExecutionContext::unfenced();
    assert_eq!(unfenced.command_topology_fence(), None);
    assert!(!unfenced.captured(0));
    assert_eq!(RuleExecutionContext::default(), unfenced);
}

struct FixedReading;

impl RuleLiveState<f64> for FixedReading {
    fn get_instance(
        &self,
        instance_id: u32,
        instance_type: u8,
        point_id: u32,
    ) -> Option<(f64, u64)> {
        Some((
            f64::from(instance_id) + f64::from(instance_type) / 2.0,
            u64::from(point_id),
        ))
    }
}

#[test]
fn compatibility_adapters_are_unfenced_and_ignore_the_context() {
    let context = FixedReading.begin_execution();
    assert_eq!(context, RuleExecutionContext::unfenced());
    let fenced = RuleExecutionContext::topology_fenced(CommandTopologyFence::new(3));
    assert_eq!(
        FixedReading.get_instance_for_execution(fenced, 9, 1, 4),
        Some((9.5, 4))
    );

    let mut memory = MemoryRuleLiveState::new();
    assert!(memory.set_instance(9, 0, 4, 12.5, 100));
    assert_eq!(
        memory.begin_execution().command_topology_fence(),
        None
    );
    assert_eq!(
        memory.get_instance_for_execution(fenced, 9, 0, 4),
        Some((12.5, 100))
    );
}

#[test]
fn a_health_observation_keeps_what_was_observed() {
    let observation =
        ChannelHealthObservation::new(ChannelId::new(7), true, TimestampMs::new(1_700));
    assert_eq!(observation.channel_id(), ChannelId::new(7));
    assert_eq!(observation.channel_id().get(), 7);
    assert!(observation.online());
    assert_eq!(observation.observed_at(), TimestampMs::new(1_700));
    assert_eq!(observation.timestamp_ms(), 1_700);
    let offline = ChannelHealthObservation::new(ChannelId::new(7), false, TimestampMs::new(0));
    assert!(!offline.online());
    assert_ne!(observation, offline);
}
