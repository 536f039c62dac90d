//! Live-value input for deterministic rule evaluation.

use crate::point_table::{lookup, PointKey, PointTable};
use crate::port::CommandTopologyFence;
use vstd::prelude::*;

verus! {

/// Immutable context captured once before a rule begins reading live state.
///
/// Production attaches the current automation topology sequence. Every read in
/// that execution may validate the context, and every derived device action
/// carries the same fence to the command dispatcher. Test and compatibility
/// adapters remain explicitly unfenced.
#[derive(Debug, Clone, Copy, PartialEq, Eq, Structural)]
pub struct RuleExecutionContext {
    command_topology_fence: Option<CommandTopologyFence>,
}

impl View for RuleExecutionContext {
    type V = Option<CommandTopologyFence>;

    closed spec fn view(&self) -> Option<CommandTopologyFence> {
        self.command_topology_fence
    }
}

/// Whether a context with this fence may read from the topology publication
/// with the given sequence: it must have captured exactly that one.
pub open spec fn admits(fence: Option<CommandTopologyFence>, sequence: u64) -> bool {
    fence matches Some(captured) && captured@ == sequence
}

impl RuleExecutionContext {
    /// Creates a compatibility context without a runtime topology fence.
    #[must_use]
    pub fn unfenced() -> (context: Self)
        ensures
            context@ is None,
    {
        RuleExecutionContext { command_topology_fence: None }
    }

    /// Creates an execution context tied to one exact topology publication.
    #[must_use]
    pub fn topology_fenced(fence: CommandTopologyFence) -> (context: Self)
        ensures
            context@ == Some(fence),
    {
        RuleExecutionContext { command_topology_fence: Some(fence) }
    }

    /// Returns the fence that every command derived by this execution must use.
    #[must_use]
    pub fn command_topology_fence(self) -> (fence: Option<CommandTopologyFence>)
        ensures
            fence == self@,
    {
        self.command_topology_fence
    }

    /// Returns whether this context captured the publication with the given
    /// sequence.
    pub fn captured(self, sequence: u64) -> (answer: bool)
        ensures
            answer == admits(self@, sequence),
    {
        match self.command_topology_fence {
            Some(fence) => fence.expected_sequence() == sequence,
            None => false,
        }
    }
}

impl Default for RuleExecutionContext {
    /// The default context is unfenced.
    fn default() -> (context: Self)
        ensures
            context@ is None,
    {
        RuleExecutionContext::unfenced()
    }
}

/// Read-only live state consumed by rule evaluation, with point values of type
/// `V`.
///
/// Production composition injects its adapter at the service boundary. The
/// trait exists so that a caller can supply deterministic values without
/// creating a shared-memory file.
pub trait RuleLiveState<V>: Send + Sync {
    /// Captures one context before the first read in a rule execution.
    ///
    /// The default preserves deterministic test and compatibility adapters. A
    /// production topology-aware adapter should return a fenced context.
    fn begin_execution(&self) -> (context: RuleExecutionContext)
        default_ensures
            context@ is None,
    {
        RuleExecutionContext::unfenced()
    }

    /// Reads `(value, timestamp_ms)` for an instance point.
    /// `instance_type` is `0` for Measurement and `1` for Action.
    fn get_instance(
        &self,
        instance_id: u32,
        instance_type: u8,
        point_id: u32,
    ) -> Option<(V, u64)>;

    /// Reads one point under a previously captured execution context.
    ///
    /// The default delegates to the compatibility read. Topology-aware adapters
    /// override this to reject a read after the captured generation changes.
    fn get_instance_for_execution(
        &self,
        _execution: RuleExecutionContext,
        instance_id: u32,
        instance_type: u8,
        point_id: u32,
    ) -> (reading: Option<(V, u64)>)
        default_ensures
            call_ensures(Self::get_instance, (self, instance_id, instance_type, point_id), reading),
    {
        self.get_instance(instance_id, instance_type, point_id)
    }
}

/// Deterministic in-process adapter for tests and simulations.
pub struct MemoryRuleLiveState<V> {
    values: PointTable<(V, u64)>,
}

impl<V> View for MemoryRuleLiveState<V> {
    type V = Map<PointKey, (V, u64)>;

    closed spec fn view(&self) -> Map<PointKey, (V, u64)> {
        self.values@
    }
}

impl<V: Copy> MemoryRuleLiveState<V> {
    /// Creates an adapter that knows no point.
    #[must_use]
    pub fn new() -> (state: Self)
        ensures
            state@ == Map::<PointKey, (V, u64)>::empty(),
    {
        MemoryRuleLiveState { values: PointTable::new() }
    }

    /// Inserts or replaces a value, and says that it was stored.
    pub fn set_instance(
        &mut self,
        instance_id: u32,
        instance_type: u8,
        point_id: u32,
        value: V,
        timestamp_ms: u64,
    ) -> (stored: bool)
        ensures
            stored,
            final(self)@ == old(self)@.insert(
                (instance_id, instance_type, point_id),
                (value, timestamp_ms),
            ),
    {
        self.values.insert((instance_id, instance_type, point_id), (value, timestamp_ms));
        true
    }

    /// Inserts or replaces a value in an adapter behind a lock. `values` is
    /// what the lock granted: a lock that grants nothing stores nothing, and
    /// that is the only way in which this answers `false`.
    pub fn set_guarded(
        values: Option<&mut Self>,
        instance_id: u32,
        instance_type: u8,
        point_id: u32,
        value: V,
        timestamp_ms: u64,
    ) -> (stored: bool)
        ensures
            stored == (values is Some),
            values matches Some(state) ==> (*final(state))@ == (*state)@.insert(
                (instance_id, instance_type, point_id),
                (value, timestamp_ms),
            ),
    {
        match values {
            Some(state) => state.set_instance(
                instance_id,
                instance_type,
                point_id,
                value,
                timestamp_ms,
            ),
            None => false,
        }
    }

    /// Reads a point of an adapter behind a lock. `values` is what the lock
    /// granted: where it granted nothing, nothing is read.
    pub fn get_guarded(
        values: Option<&Self>,
        instance_id: u32,
        instance_type: u8,
        point_id: u32,
    ) -> (reading: Option<(V, u64)>)
        ensures
            reading == match values {
                Some(state) => lookup(state@, (instance_id, instance_type, point_id)),
                None => None,
            },
    {
        match values {
            Some(state) => state.values.get((instance_id, instance_type, point_id)),
            None => None,
        }
    }
}

impl<V: Copy> Default for MemoryRuleLiveState<V> {
    /// The default adapter knows no point.
    fn default() -> (state: Self)
        ensures
            state@ == Map::<PointKey, (V, u64)>::empty(),
    {
        MemoryRuleLiveState::new()
    }
}

impl<V: Copy + Send + Sync> RuleLiveState<V> for MemoryRuleLiveState<V> {
    fn get_instance(
        &self,
        instance_id: u32,
        instance_type: u8,
        point_id: u32,
    ) -> (reading: Option<(V, u64)>)
        ensures
            reading == lookup(self@, (instance_id, instance_type, point_id)),
    {
        self.values.get((instance_id, instance_type, point_id))
    }
}

/// A read gives back what was written last, and a write changes no other
/// point.
pub proof fn law_read_after_write<V>(
    before: Map<PointKey, (V, u64)>,
    written: PointKey,
    sample: (V, u64),
    read: PointKey,
)
    ensures
        lookup(before.insert(written, sample), read) == if read == written {
            Some(sample)
        } else {
            lookup(before, read)
        },
{
}

/// Measurements and actions are kept apart: a write of one never changes the
/// other, though instance and point be the same.
pub proof fn law_classes_are_apart<V>(
    before: Map<PointKey, (V, u64)>,
    instance_id: u32,
    written_type: u8,
    read_type: u8,
    point_id: u32,
    sample: (V, u64),
)
    requires
        written_type != read_type,
    ensures
        lookup(
            before.insert((instance_id, written_type, point_id), sample),
            (instance_id, read_type, point_id),
        ) == lookup(before, (instance_id, read_type, point_id)),
{
}

/// A context captures at most one publication: whatever it admits, it admits
/// nothing else, and an unfenced one admits nothing.
pub proof fn law_context_admits_one_publication(
    fence: Option<CommandTopologyFence>,
    sequence: u64,
    other: u64,
)
    ensures
        fence is None ==> !admits(fence, sequence),
        admits(fence, sequence) && admits(fence, other) ==> sequence == other,
{
}

/// `state` keeps the default read under a context: whatever that read may
/// return, the compatibility read may return for the same point.
pub open spec fn keeps_default_read<V, S: RuleLiveState<V>>(state: &S) -> bool {
    forall|
        execution: RuleExecutionContext,
        instance_id: u32,
        instance_type: u8,
        point_id: u32,
        reading: Option<(V, u64)>,
    | #[trigger]
        call_ensures(
            S::get_instance_for_execution,
            (state, execution, instance_id, instance_type, point_id),
            reading,
        ) ==> call_ensures(
            S::get_instance,
            (state, instance_id, instance_type, point_id),
            reading,
        )
}

/// An adapter that keeps the default read returns under any context, fenced or
/// not, what its compatibility read returns. Where that is one value, the
/// context changes nothing.
pub proof fn law_default_read_ignores_context<V, S: RuleLiveState<V>>(
    state: &S,
    one: RuleExecutionContext,
    other: RuleExecutionContext,
    instance_id: u32,
    instance_type: u8,
    point_id: u32,
    one_reading: Option<(V, u64)>,
    other_reading: Option<(V, u64)>,
)
    requires
        keeps_default_read(state),
        call_ensures(
            S::get_instance_for_execution,
            (state, one, instance_id, instance_type, point_id),
            one_reading,
        ),
        call_ensures(
            S::get_instance_for_execution,
            (state, other, instance_id, instance_type, point_id),
            other_reading,
        ),
    ensures
        call_ensures(
            S::get_instance,
            (state, instance_id, instance_type, point_id),
            one_reading,
        ),
        (forall|a: Option<(V, u64)>, b: Option<(V, u64)>|
            #[trigger] call_ensures(
                S::get_instance,
                (state, instance_id, instance_type, point_id),
                a,
            ) && #[trigger] call_ensures(
                S::get_instance,
                (state, instance_id, instance_type, point_id),
                b,
            ) ==> a == b) ==> one_reading == other_reading,
{
}

/// The in-process adapter keeps the default read, and what it reads under any
/// context is what was written.
pub proof fn law_memory_keeps_default_read<V: Copy + Send + Sync>(
    state: &MemoryRuleLiveState<V>,
    execution: RuleExecutionContext,
    instance_id: u32,
    instance_type: u8,
    point_id: u32,
    reading: Option<(V, u64)>,
)
    ensures
        keeps_default_read(state),
        call_ensures(
            MemoryRuleLiveState::<V>::get_instance_for_execution,
            (state, execution, instance_id, instance_type, point_id),
            reading,
        ) ==> reading == lookup(state@, (instance_id, instance_type, point_id)),
{
}

/// Two contexts with the same fence are the same context. So the default
/// context is the unfenced one.
pub proof fn law_context_is_its_fence(a: RuleExecutionContext, b: RuleExecutionContext)
    requires
        a@ == b@,
    ensures
        a == b,
{
}

} // verus!
