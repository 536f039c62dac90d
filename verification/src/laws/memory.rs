//! What tables and the in-process adapter give back of what was written.

use crate::live_state::{MemoryRuleLiveState, RuleExecutionContext, RuleLiveState};
use crate::point_table::{PointKey, PointTable};
use crate::port::CommandTopologyFence;
use vstd::prelude::*;

verus! {

/// A new table answers for no key.
pub proof fn law_new_table_is_empty<V: Copy>(
    table: PointTable<V>,
    key: PointKey,
    found: Option<V>,
)
    requires
        call_ensures(PointTable::<V>::new, (), table),
        call_ensures(PointTable::<V>::get, (&table, key), found),
    ensures
        found is None,
{
}

/// After a value was inserted, its key answers with exactly that value, and
/// every other key answers as before.
pub proof fn law_table_answers_with_what_was_inserted<V: Copy>(
    table: &mut PointTable<V>,
    key: PointKey,
    value: V,
    asked: PointKey,
    before: Option<V>,
    after: Option<V>,
)
    requires
        call_ensures(PointTable::<V>::insert, (table, key, value), ()),
        call_ensures(PointTable::<V>::get, (&*old(table), asked), before),
        call_ensures(PointTable::<V>::get, (&*final(table), asked), after),
    ensures
        asked == key ==> after == Some(value),
        asked != key ==> after == before,
{
}

/// A new adapter, made either way, reads nothing at any point.
pub proof fn law_new_adapter_reads_nothing<V: Copy + Send + Sync>(
    made: MemoryRuleLiveState<V>,
    default: MemoryRuleLiveState<V>,
    instance_id: u32,
    instance_type: u8,
    point_id: u32,
    of_made: Option<(V, u64)>,
    of_default: Option<(V, u64)>,
)
    requires
        call_ensures(MemoryRuleLiveState::<V>::new, (), made),
        call_ensures(<MemoryRuleLiveState<V> as Default>::default, (), default),
        call_ensures(
            <MemoryRuleLiveState<V> as RuleLiveState<V>>::get_instance,
            (&made, instance_id, instance_type, point_id),
            of_made,
        ),
        call_ensures(
            <MemoryRuleLiveState<V> as RuleLiveState<V>>::get_instance,
            (&default, instance_id, instance_type, point_id),
            of_default,
        ),
    ensures
        of_made is None,
        of_default is None,
{
}

/// A write is always stored. It is read back with exactly the value and the
/// time that were written, and every other point reads as before, be it another
/// instance, another class or another point.
pub proof fn law_written_sample_is_read_back<V: Copy + Send + Sync>(
    state: &mut MemoryRuleLiveState<V>,
    instance_id: u32,
    instance_type: u8,
    point_id: u32,
    value: V,
    timestamp_ms: u64,
    stored: bool,
    read_instance: u32,
    read_type: u8,
    read_point: u32,
    before: Option<(V, u64)>,
    after: Option<(V, u64)>,
)
    requires
        call_ensures(
            MemoryRuleLiveState::<V>::set_instance,
            (state, instance_id, instance_type, point_id, value, timestamp_ms),
            stored,
        ),
        call_ensures(
            <MemoryRuleLiveState<V> as RuleLiveState<V>>::get_instance,
            (&*old(state), read_instance, read_type, read_point),
            before,
        ),
        call_ensures(
            <MemoryRuleLiveState<V> as RuleLiveState<V>>::get_instance,
            (&*final(state), read_instance, read_type, read_point),
            after,
        ),
    ensures
        stored,
        read_instance == instance_id && read_type == instance_type && read_point == point_id
            ==> after == Some((value, timestamp_ms)),
        read_instance != instance_id || read_type != instance_type || read_point != point_id
            ==> after == before,
{
}

/// A write through a lock that was granted is a write, and one through a lock
/// that was not stores nothing and says so.
pub proof fn law_guarded_write_is_read_back<V: Copy + Send + Sync>(
    state: &mut MemoryRuleLiveState<V>,
    instance_id: u32,
    instance_type: u8,
    point_id: u32,
    value: V,
    timestamp_ms: u64,
    stored: bool,
    refused: bool,
    read_instance: u32,
    read_type: u8,
    read_point: u32,
    before: Option<(V, u64)>,
    after: Option<(V, u64)>,
)
    requires
        call_ensures(
            MemoryRuleLiveState::<V>::set_guarded,
            (Some(state), instance_id, instance_type, point_id, value, timestamp_ms),
            stored,
        ),
        call_ensures(
            MemoryRuleLiveState::<V>::set_guarded,
            (None, instance_id, instance_type, point_id, value, timestamp_ms),
            refused,
        ),
        call_ensures(
            <MemoryRuleLiveState<V> as RuleLiveState<V>>::get_instance,
            (&*old(state), read_instance, read_type, read_point),
            before,
        ),
        call_ensures(
            <MemoryRuleLiveState<V> as RuleLiveState<V>>::get_instance,
            (&*final(state), read_instance, read_type, read_point),
            after,
        ),
    ensures
        stored,
        !refused,
        read_instance == instance_id && read_type == instance_type && read_point == point_id
            ==> after == Some((value, timestamp_ms)),
        read_instance != instance_id || read_type != instance_type || read_point != point_id
            ==> after == before,
{
}

/// A read through a lock that was granted is a read, and one through a lock
/// that was not reads nothing.
pub proof fn law_guarded_read_is_a_read<V: Copy + Send + Sync>(
    state: &MemoryRuleLiveState<V>,
    instance_id: u32,
    instance_type: u8,
    point_id: u32,
    plain: Option<(V, u64)>,
    granted: Option<(V, u64)>,
    refused: Option<(V, u64)>,
)
    requires
        call_ensures(
            <MemoryRuleLiveState<V> as RuleLiveState<V>>::get_instance,
            (state, instance_id, instance_type, point_id),
            plain,
        ),
        call_ensures(
            MemoryRuleLiveState::<V>::get_guarded,
            (Some(state), instance_id, instance_type, point_id),
            granted,
        ),
        call_ensures(
            MemoryRuleLiveState::<V>::get_guarded,
            (None, instance_id, instance_type, point_id),
            refused,
        ),
    ensures
        granted == plain,
        refused is None,
{
}

/// Executions over the in-process adapter begin without a fence, and read under
/// any context what is read without one.
pub proof fn law_adapter_ignores_contexts<V: Copy + Send + Sync>(
    state: &MemoryRuleLiveState<V>,
    begun: RuleExecutionContext,
    fence: Option<CommandTopologyFence>,
    execution: RuleExecutionContext,
    instance_id: u32,
    instance_type: u8,
    point_id: u32,
    plain: Option<(V, u64)>,
    fenced: Option<(V, u64)>,
)
    requires
        call_ensures(
            <MemoryRuleLiveState<V> as RuleLiveState<V>>::begin_execution,
            (state,),
            begun,
        ),
        call_ensures(RuleExecutionContext::command_topology_fence, (begun,), fence),
        call_ensures(
            <MemoryRuleLiveState<V> as RuleLiveState<V>>::get_instance,
            (state, instance_id, instance_type, point_id),
            plain,
        ),
        call_ensures(
            <MemoryRuleLiveState<V> as RuleLiveState<V>>::get_instance_for_execution,
            (state, execution, instance_id, instance_type, point_id),
            fenced,
        ),
    ensures
        fence is None,
        fenced == plain,
{
}

} // verus!
