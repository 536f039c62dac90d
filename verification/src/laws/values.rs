//! What plain values keep of what they were made of.

use crate::channel_health::ChannelHealthObservation;
use crate::domain::{ChannelId, TimestampMs};
use crate::live_state::RuleExecutionContext;
use crate::port::{CommandTopologyFence, PortError, PortErrorKind};
use crate::rule_live_state::{AutomationTopologyGeneration, ChannelPointValue};
use crate::shm_client::{
    ChannelHealthManifest, ChannelPointManifest, ReconnectingSlotSource, ShmChannelHealthReader,
    ShmClientConfig,
};
use crate::shm_path::{arrange_leases, order_leases, path_bytes, PathOrder, ShmPath};
use std::path::PathBuf;
use std::sync::Arc;
use vstd::prelude::*;

verus! {

/// A channel identity gives back the number that it was made of.
pub proof fn law_channel_id_keeps_its_number(raw: u32, id: ChannelId, number: u32)
    requires
        call_ensures(ChannelId::new, (raw,), id),
        call_ensures(ChannelId::get, (id,), number),
    ensures
        number == raw,
{
}

/// A timestamp gives back the milliseconds that it was made of.
pub proof fn law_timestamp_keeps_its_milliseconds(raw: u64, at: TimestampMs, millis: u64)
    requires
        call_ensures(TimestampMs::new, (raw,), at),
        call_ensures(TimestampMs::get, (at,), millis),
    ensures
        millis == raw,
{
}

/// A health observation gives back the channel, the state and the time that it
/// was made of, the time as a timestamp and as a number.
pub proof fn law_observation_keeps_its_parts(
    number: u32,
    id: ChannelId,
    online: bool,
    raw: u64,
    at: TimestampMs,
    observation: ChannelHealthObservation,
    seen_id: ChannelId,
    seen_number: u32,
    seen_online: bool,
    seen_at: TimestampMs,
    seen_millis: u64,
)
    requires
        call_ensures(ChannelId::new, (number,), id),
        call_ensures(TimestampMs::new, (raw,), at),
        call_ensures(ChannelHealthObservation::new, (id, online, at), observation),
        call_ensures(ChannelHealthObservation::channel_id, (observation,), seen_id),
        call_ensures(ChannelId::get, (seen_id,), seen_number),
        call_ensures(ChannelHealthObservation::online, (observation,), seen_online),
        call_ensures(ChannelHealthObservation::observed_at, (observation,), seen_at),
        call_ensures(ChannelHealthObservation::timestamp_ms, (observation,), seen_millis),
    ensures
        seen_id == id,
        seen_number == number,
        seen_online == online,
        seen_at == at,
        seen_millis == raw,
{
}

/// An error gives back its kind and its text, and is worth repeating unless what
/// the caller composed is at fault.
pub proof fn law_error_keeps_its_parts(
    kind: PortErrorKind,
    message: String,
    error: PortError,
    seen_kind: PortErrorKind,
    seen_message: &String,
    retryable: bool,
)
    requires
        call_ensures(PortError::new, (kind, message), error),
        call_ensures(PortError::kind, (&error,), seen_kind),
        call_ensures(PortError::message, (&error,), seen_message),
        call_ensures(PortError::is_retryable, (&error,), retryable),
    ensures
        seen_kind == kind,
        seen_message@ == message@,
        retryable <==> (kind == PortErrorKind::Conflict || kind == PortErrorKind::Unavailable),
        retryable <==> !(kind == PortErrorKind::InvalidData),
{
}

/// A fence gives back the sequence that it was made of.
pub proof fn law_fence_keeps_its_sequence(sequence: u64, fence: CommandTopologyFence, expected: u64)
    requires
        call_ensures(CommandTopologyFence::new, (sequence,), fence),
        call_ensures(CommandTopologyFence::expected_sequence, (fence,), expected),
    ensures
        expected == sequence,
{
}

/// A fenced context hands out the fence that it was made with, and an unfenced
/// one, which is also the default, hands out none.
pub proof fn law_context_hands_out_its_fence(
    fence: CommandTopologyFence,
    fenced: RuleExecutionContext,
    unfenced: RuleExecutionContext,
    default: RuleExecutionContext,
    of_fenced: Option<CommandTopologyFence>,
    of_unfenced: Option<CommandTopologyFence>,
    of_default: Option<CommandTopologyFence>,
)
    requires
        call_ensures(RuleExecutionContext::topology_fenced, (fence,), fenced),
        call_ensures(RuleExecutionContext::unfenced, (), unfenced),
        call_ensures(<RuleExecutionContext as Default>::default, (), default),
        call_ensures(RuleExecutionContext::command_topology_fence, (fenced,), of_fenced),
        call_ensures(RuleExecutionContext::command_topology_fence, (unfenced,), of_unfenced),
        call_ensures(RuleExecutionContext::command_topology_fence, (default,), of_default),
    ensures
        of_fenced == Some(fence),
        of_unfenced is None,
        of_default is None,
{
}

/// A context admits a publication exactly when its fence expects the sequence of
/// that publication, and no publication when it has no fence.
pub proof fn law_context_admits_what_its_fence_expects(
    context: RuleExecutionContext,
    fence: Option<CommandTopologyFence>,
    sequence: u64,
    admitted: bool,
)
    requires
        call_ensures(RuleExecutionContext::command_topology_fence, (context,), fence),
        call_ensures(RuleExecutionContext::captured, (context, sequence), admitted),
    ensures
        fence is None ==> !admitted,
        forall|captured: CommandTopologyFence, expected: u64|
            fence == Some(captured) && #[trigger] call_ensures(
                CommandTopologyFence::expected_sequence,
                (captured,),
                expected,
            ) ==> (admitted <==> expected == sequence),
{
}

/// A context that is fenced with the sequence of a publication admits that
/// publication and no other.
pub proof fn law_fenced_context_admits_its_publication(
    captured: u64,
    fence: CommandTopologyFence,
    context: RuleExecutionContext,
    sequence: u64,
    admitted: bool,
)
    requires
        call_ensures(CommandTopologyFence::new, (captured,), fence),
        call_ensures(RuleExecutionContext::topology_fenced, (fence,), context),
        call_ensures(RuleExecutionContext::captured, (context, sequence), admitted),
    ensures
        admitted <==> sequence == captured,
{
}

/// A sample gives back the value and the time that it was made of.
pub proof fn law_sample_keeps_its_parts<V: Copy>(
    value: V,
    timestamp_ms: u64,
    sample: ChannelPointValue<V>,
    seen_value: V,
    seen_time: u64,
)
    requires
        call_ensures(ChannelPointValue::<V>::new, (value, timestamp_ms), sample),
        call_ensures(ChannelPointValue::<V>::value, (&sample,), seen_value),
        call_ensures(ChannelPointValue::<V>::timestamp_ms, (&sample,), seen_time),
    ensures
        seen_value == value,
        seen_time == timestamp_ms,
{
}

/// A publication gives back the sequence that it was made with.
pub proof fn law_publication_keeps_its_sequence<P>(
    sequence: u64,
    points: P,
    generation: AutomationTopologyGeneration<P>,
    seen: u64,
)
    requires
        call_ensures(AutomationTopologyGeneration::<P>::new, (sequence, points), generation),
        call_ensures(AutomationTopologyGeneration::<P>::sequence, (&generation,), seen),
    ensures
        seen == sequence,
        generation@.sequence == sequence,
        generation@.points == points,
{
}

/// A client configuration gives back the plane and the hash that it was made
/// of.
pub proof fn law_config_keeps_its_parts(
    path: ShmPath,
    hash: u64,
    config: ShmClientConfig,
    seen_path: &ShmPath,
    seen_hash: u64,
)
    requires
        call_ensures(ShmClientConfig::new, (path, hash), config),
        call_ensures(ShmClientConfig::path, (&config,), seen_path),
        call_ensures(ShmClientConfig::expected_layout_hash, (&config,), seen_hash),
    ensures
        *seen_path == path,
        seen_hash == hash,
{
}

/// A point manifest gives back the hash and the size that it was made of.
pub proof fn law_point_manifest_keeps_its_parts(
    hash: u64,
    count: usize,
    manifest: ChannelPointManifest,
    seen_hash: u64,
    seen_count: usize,
)
    requires
        call_ensures(ChannelPointManifest::new, (hash, count), manifest),
        call_ensures(ChannelPointManifest::layout_hash, (&manifest,), seen_hash),
        call_ensures(ChannelPointManifest::slot_count, (&manifest,), seen_count),
    ensures
        seen_hash == hash,
        seen_count == count,
{
}

/// A health manifest gives back the hash and the size that it was made of.
pub proof fn law_health_manifest_keeps_its_parts(
    hash: u64,
    count: usize,
    manifest: ChannelHealthManifest,
    seen_hash: u64,
    seen_count: usize,
)
    requires
        call_ensures(ChannelHealthManifest::new, (hash, count), manifest),
        call_ensures(ChannelHealthManifest::layout_hash, (&manifest,), seen_hash),
        call_ensures(ChannelHealthManifest::slot_count, (&manifest,), seen_count),
    ensures
        seen_hash == hash,
        seen_count == count,
{
}

/// A point source gives back the configuration that it was made of.
pub proof fn law_point_source_keeps_its_config(
    config: ShmClientConfig,
    source: ReconnectingSlotSource,
    seen: &ShmClientConfig,
)
    requires
        call_ensures(ReconnectingSlotSource::new, (config,), source),
        call_ensures(ReconnectingSlotSource::config, (&source,), seen),
    ensures
        *seen == config,
{
}

/// A health reader gives back the configuration and the manifest that it was
/// made of.
pub proof fn law_health_reader_keeps_its_parts(
    config: ShmClientConfig,
    manifest: Arc<ChannelHealthManifest>,
    reader: ShmChannelHealthReader,
    seen_config: &ShmClientConfig,
    seen_manifest: &Arc<ChannelHealthManifest>,
)
    requires
        call_ensures(ShmChannelHealthReader::new, (config, manifest), reader),
        call_ensures(ShmChannelHealthReader::config, (&reader,), seen_config),
        call_ensures(ShmChannelHealthReader::manifest, (&reader,), seen_manifest),
    ensures
        *seen_config == config,
        **seen_manifest == *manifest,
{
}

/// A plane's path is spelled as it was given, and so is a copy of it.
pub proof fn law_path_keeps_its_spelling(
    path: PathBuf,
    plane: ShmPath,
    copy: ShmPath,
    seen: &PathBuf,
    seen_copy: &PathBuf,
)
    requires
        call_ensures(ShmPath::new, (path,), plane),
        call_ensures(<ShmPath as Clone>::clone, (&plane,), copy),
        call_ensures(ShmPath::as_path, (&plane,), seen),
        call_ensures(ShmPath::as_path, (&copy,), seen_copy),
    ensures
        path_bytes(*seen) == path_bytes(path),
        path_bytes(*seen_copy) == path_bytes(path),
{
}

/// Paths compare against each other as they do the other way round, and a path
/// is the same as its copy.
pub proof fn law_path_order_turns_round(
    left: ShmPath,
    right: ShmPath,
    there: PathOrder,
    back: PathOrder,
    copy: ShmPath,
    with_copy: PathOrder,
)
    requires
        call_ensures(ShmPath::compare, (&left, &right), there),
        call_ensures(ShmPath::compare, (&right, &left), back),
        call_ensures(<ShmPath as Clone>::clone, (&left,), copy),
        call_ensures(ShmPath::compare, (&left, &copy), with_copy),
    ensures
        there == PathOrder::Before <==> back == PathOrder::After,
        there == PathOrder::Same <==> back == PathOrder::Same,
        there == PathOrder::After <==> back == PathOrder::Before,
        with_copy == PathOrder::Same,
{
}

/// Two planes are arranged as they stand: they change places exactly when the
/// left one comes after the right one.
pub proof fn law_planes_are_arranged_as_they_stand<'a>(
    order: PathOrder,
    left: &'a ShmPath,
    right: &'a ShmPath,
    arranged: (&'a ShmPath, &'a ShmPath),
)
    requires
        call_ensures(arrange_leases, (order, left, right), arranged),
    ensures
        order == PathOrder::After ==> *arranged.0 == *right && *arranged.1 == *left,
        !(order == PathOrder::After) ==> *arranged.0 == *left && *arranged.1 == *right,
{
}

/// Two planes are ordered by their paths: the same two come out, the second
/// never before the first.
pub proof fn law_planes_are_ordered_by_their_paths<'a>(
    left: &'a ShmPath,
    right: &'a ShmPath,
    arranged: (&'a ShmPath, &'a ShmPath),
    stands: PathOrder,
    result: PathOrder,
)
    requires
        call_ensures(order_leases, (left, right), arranged),
        call_ensures(ShmPath::compare, (left, right), stands),
        call_ensures(ShmPath::compare, (arranged.0, arranged.1), result),
    ensures
        !(result == PathOrder::After),
        stands == PathOrder::After ==> *arranged.0 == *right && *arranged.1 == *left,
        !(stands == PathOrder::After) ==> *arranged.0 == *left && *arranged.1 == *right,
{
}

} // verus!
