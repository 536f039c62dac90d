//! Where logical points resolve to once they are routed.

use crate::domain::{PointKind, PointType};
use crate::routing::{C2mSource, ChannelPointAddress, M2cTarget, RoutingCache};
use vstd::prelude::*;

verus! {

/// A new snapshot routes nothing.
pub proof fn law_new_snapshot_routes_nothing(
    cache: RoutingCache,
    instance_id: u32,
    instance_type: u8,
    class: PointType,
    point_id: u32,
    address: Option<ChannelPointAddress>,
    source: Option<C2mSource>,
    target: Option<M2cTarget>,
)
    requires
        call_ensures(RoutingCache::new, (), cache),
        call_ensures(RoutingCache::resolve, (&cache, instance_id, instance_type, point_id), address),
        call_ensures(RoutingCache::lookup_c2m_reverse, (&cache, instance_id, point_id), source),
        call_ensures(
            RoutingCache::lookup_m2c_by_parts,
            (&cache, instance_id, class, point_id),
            target,
        ),
    ensures
        address is None,
        source is None,
        target is None,
{
}

/// A measurement that was routed is looked up as it was routed; every other
/// measurement, and every output, is looked up as before.
pub proof fn law_measurement_is_looked_up_as_routed(
    cache: &mut RoutingCache,
    instance_id: u32,
    point_id: u32,
    source: C2mSource,
    asked_instance: u32,
    asked_class: PointType,
    asked_point: u32,
    source_before: Option<C2mSource>,
    source_after: Option<C2mSource>,
    target_before: Option<M2cTarget>,
    target_after: Option<M2cTarget>,
)
    requires
        call_ensures(RoutingCache::set_c2m_reverse, (cache, instance_id, point_id, source), ()),
        call_ensures(
            RoutingCache::lookup_c2m_reverse,
            (&*old(cache), asked_instance, asked_point),
            source_before,
        ),
        call_ensures(
            RoutingCache::lookup_c2m_reverse,
            (&*final(cache), asked_instance, asked_point),
            source_after,
        ),
        call_ensures(
            RoutingCache::lookup_m2c_by_parts,
            (&*old(cache), asked_instance, asked_class, asked_point),
            target_before,
        ),
        call_ensures(
            RoutingCache::lookup_m2c_by_parts,
            (&*final(cache), asked_instance, asked_class, asked_point),
            target_after,
        ),
    ensures
        asked_instance == instance_id && asked_point == point_id ==> source_after == Some(source),
        asked_instance != instance_id || asked_point != point_id ==> source_after == source_before,
        target_after == target_before,
{
}

/// An output that was routed is looked up as it was routed; every other output,
/// be it only of another class, and every measurement, is looked up as before.
pub proof fn law_output_is_looked_up_as_routed(
    cache: &mut RoutingCache,
    instance_id: u32,
    class: PointType,
    point_id: u32,
    target: M2cTarget,
    asked_instance: u32,
    asked_class: PointType,
    asked_point: u32,
    source_before: Option<C2mSource>,
    source_after: Option<C2mSource>,
    target_before: Option<M2cTarget>,
    target_after: Option<M2cTarget>,
)
    requires
        call_ensures(RoutingCache::set_m2c, (cache, instance_id, class, point_id, target), ()),
        call_ensures(
            RoutingCache::lookup_c2m_reverse,
            (&*old(cache), asked_instance, asked_point),
            source_before,
        ),
        call_ensures(
            RoutingCache::lookup_c2m_reverse,
            (&*final(cache), asked_instance, asked_point),
            source_after,
        ),
        call_ensures(
            RoutingCache::lookup_m2c_by_parts,
            (&*old(cache), asked_instance, asked_class, asked_point),
            target_before,
        ),
        call_ensures(
            RoutingCache::lookup_m2c_by_parts,
            (&*final(cache), asked_instance, asked_class, asked_point),
            target_after,
        ),
    ensures
        asked_instance == instance_id && asked_class == class && asked_point == point_id
            ==> target_after == Some(target),
        asked_instance != instance_id || asked_class != class || asked_point != point_id
            ==> target_after == target_before,
        source_after == source_before,
{
}

/// A measurement that is routed to a measured class resolves to exactly the
/// channel and the point of its route; one that is routed to an output class,
/// or not at all, does not resolve.
pub proof fn law_measurement_resolves_to_its_source(
    cache: &RoutingCache,
    instance_id: u32,
    point_id: u32,
    source: Option<C2mSource>,
    address: Option<ChannelPointAddress>,
)
    requires
        call_ensures(RoutingCache::lookup_c2m_reverse, (cache, instance_id, point_id), source),
        call_ensures(RoutingCache::resolve, (cache, instance_id, 0u8, point_id), address),
    ensures
        source is None ==> address is None,
        source matches Some(route) ==> {
            &&& route.1 == PointType::Telemetry || route.1 == PointType::Signal
                ==> address is Some
            &&& route.1 == PointType::Control || route.1 == PointType::Adjustment
                ==> address is None
            &&& address matches Some(found) ==> {
                &&& found.channel_id == route.0
                &&& found.point_id == route.2
                &&& found.kind == PointKind::Telemetry <==> route.1 == PointType::Telemetry
                &&& found.kind == PointKind::Status <==> route.1 == PointType::Signal
            }
        },
{
}

/// An output resolves to exactly the channel and the point of its target, which
/// is that of its discrete route if it has one and else that of its analogue
/// route. A target of a measured class, or none at all, does not resolve. All
/// classes but that of measurements are outputs.
pub proof fn law_output_resolves_to_its_target(
    cache: &RoutingCache,
    instance_id: u32,
    instance_type: u8,
    point_id: u32,
    discrete: Option<M2cTarget>,
    analogue: Option<M2cTarget>,
    address: Option<ChannelPointAddress>,
)
    requires
        instance_type != 0,
        call_ensures(
            RoutingCache::lookup_m2c_by_parts,
            (cache, instance_id, PointType::Control, point_id),
            discrete,
        ),
        call_ensures(
            RoutingCache::lookup_m2c_by_parts,
            (cache, instance_id, PointType::Adjustment, point_id),
            analogue,
        ),
        call_ensures(RoutingCache::resolve, (cache, instance_id, instance_type, point_id), address),
    ensures
        discrete is None && analogue is None ==> address is None,
        forall|target: M2cTarget|
            #![trigger target.point_type]
            discrete == Some(target) || (discrete is None && analogue == Some(target)) ==> {
                &&& target.point_type == PointType::Control || target.point_type
                    == PointType::Adjustment ==> address is Some
                &&& target.point_type == PointType::Telemetry || target.point_type
                    == PointType::Signal ==> address is None
                &&& address matches Some(found) ==> {
                    &&& found.channel_id == target.channel_id
                    &&& found.point_id == target.point_id
                    &&& found.kind == PointKind::Command <==> target.point_type
                        == PointType::Control
                    &&& found.kind == PointKind::Action <==> target.point_type
                        == PointType::Adjustment
                }
            },
{
}

/// Once a measurement was routed it resolves to its route, whatever it resolved
/// to before.
pub proof fn law_routed_measurement_resolves(
    cache: &mut RoutingCache,
    instance_id: u32,
    point_id: u32,
    channel: u32,
    class: PointType,
    point: u32,
    address: Option<ChannelPointAddress>,
)
    requires
        call_ensures(
            RoutingCache::set_c2m_reverse,
            (cache, instance_id, point_id, (channel, class, point)),
            (),
        ),
        call_ensures(RoutingCache::resolve, (&*final(cache), instance_id, 0u8, point_id), address),
    ensures
        class == PointType::Telemetry ==> address == Some(
            ChannelPointAddress { channel_id: channel, kind: PointKind::Telemetry, point_id: point },
        ),
        class == PointType::Signal ==> address == Some(
            ChannelPointAddress { channel_id: channel, kind: PointKind::Status, point_id: point },
        ),
        class == PointType::Control ==> address is None,
        class == PointType::Adjustment ==> address is None,
{
}

/// Once the discrete route of an output was set it resolves to that route,
/// whatever it resolved to before.
pub proof fn law_routed_output_resolves(
    cache: &mut RoutingCache,
    instance_id: u32,
    instance_type: u8,
    point_id: u32,
    channel: u32,
    class: PointType,
    point: u32,
    address: Option<ChannelPointAddress>,
)
    requires
        instance_type != 0,
        call_ensures(
            RoutingCache::set_m2c,
            (
                cache,
                instance_id,
                PointType::Control,
                point_id,
                (M2cTarget { channel_id: channel, point_type: class, point_id: point }),
            ),
            (),
        ),
        call_ensures(
            RoutingCache::resolve,
            (&*final(cache), instance_id, instance_type, point_id),
            address,
        ),
    ensures
        class == PointType::Control ==> address == Some(
            ChannelPointAddress { channel_id: channel, kind: PointKind::Command, point_id: point },
        ),
        class == PointType::Adjustment ==> address == Some(
            ChannelPointAddress { channel_id: channel, kind: PointKind::Action, point_id: point },
        ),
        class == PointType::Telemetry ==> address is None,
        class == PointType::Signal ==> address is None,
{
}

/// The analogue route of an output counts where it has no discrete one, and
/// otherwise changes nothing. Routes of a measured class never count.
pub proof fn law_analogue_route_comes_second(
    cache: &mut RoutingCache,
    instance_id: u32,
    instance_type: u8,
    class: PointType,
    point_id: u32,
    target: M2cTarget,
    discrete: Option<M2cTarget>,
    before: Option<ChannelPointAddress>,
    after: Option<ChannelPointAddress>,
)
    requires
        instance_type != 0,
        class != PointType::Control,
        call_ensures(RoutingCache::set_m2c, (cache, instance_id, class, point_id, target), ()),
        call_ensures(
            RoutingCache::lookup_m2c_by_parts,
            (&*old(cache), instance_id, PointType::Control, point_id),
            discrete,
        ),
        call_ensures(
            RoutingCache::resolve,
            (&*old(cache), instance_id, instance_type, point_id),
            before,
        ),
        call_ensures(
            RoutingCache::resolve,
            (&*final(cache), instance_id, instance_type, point_id),
            after,
        ),
    ensures
        class != PointType::Adjustment ==> after == before,
        discrete is Some ==> after == before,
        class == PointType::Adjustment && discrete is None ==> {
            &&& target.point_type == PointType::Control ==> after == Some(
                ChannelPointAddress {
                    channel_id: target.channel_id,
                    kind: PointKind::Command,
                    point_id: target.point_id,
                },
            )
            &&& target.point_type == PointType::Adjustment ==> after == Some(
                ChannelPointAddress {
                    channel_id: target.channel_id,
                    kind: PointKind::Action,
                    point_id: target.point_id,
                },
            )
            &&& target.point_type == PointType::Telemetry ==> after is None
            &&& target.point_type == PointType::Signal ==> after is None
        },
{
}

/// Routing one measurement changes where that measurement resolves, and nothing
/// else.
pub proof fn law_measurement_route_changes_one_point(
    cache: &mut RoutingCache,
    instance_id: u32,
    point_id: u32,
    source: C2mSource,
    asked_instance: u32,
    asked_type: u8,
    asked_point: u32,
    before: Option<ChannelPointAddress>,
    after: Option<ChannelPointAddress>,
)
    requires
        asked_type != 0 || asked_instance != instance_id || asked_point != point_id,
        call_ensures(RoutingCache::set_c2m_reverse, (cache, instance_id, point_id, source), ()),
        call_ensures(
            RoutingCache::resolve,
            (&*old(cache), asked_instance, asked_type, asked_point),
            before,
        ),
        call_ensures(
            RoutingCache::resolve,
            (&*final(cache), asked_instance, asked_type, asked_point),
            after,
        ),
    ensures
        after == before,
{
}

/// Routing one output changes where that output resolves, and nothing else.
pub proof fn law_output_route_changes_one_point(
    cache: &mut RoutingCache,
    instance_id: u32,
    class: PointType,
    point_id: u32,
    target: M2cTarget,
    asked_instance: u32,
    asked_type: u8,
    asked_point: u32,
    before: Option<ChannelPointAddress>,
    after: Option<ChannelPointAddress>,
)
    requires
        asked_type == 0 || asked_instance != instance_id || asked_point != point_id,
        call_ensures(RoutingCache::set_m2c, (cache, instance_id, class, point_id, target), ()),
        call_ensures(
            RoutingCache::resolve,
            (&*old(cache), asked_instance, asked_type, asked_point),
            before,
        ),
        call_ensures(
            RoutingCache::resolve,
            (&*final(cache), asked_instance, asked_type, asked_point),
            after,
        ),
    ensures
        after == before,
{
}

/// All classes but that of measurements are one: an output resolves alike under
/// each of them.
pub proof fn law_output_classes_resolve_alike(
    cache: &RoutingCache,
    instance_id: u32,
    one_type: u8,
    other_type: u8,
    point_id: u32,
    one: Option<ChannelPointAddress>,
    other: Option<ChannelPointAddress>,
)
    requires
        one_type != 0,
        other_type != 0,
        call_ensures(RoutingCache::resolve, (cache, instance_id, one_type, point_id), one),
        call_ensures(RoutingCache::resolve, (cache, instance_id, other_type, point_id), other),
    ensures
        one == other,
{
}

} // verus!
