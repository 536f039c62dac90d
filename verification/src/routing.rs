//! Resolution of logical instance points to physical channel points.

use crate::domain::{PointKind, PointType};
use crate::point_table::PointTable;
use vstd::prelude::*;

verus! {

/// Physical output point that a logical instance point drives.
#[derive(Debug, Clone, Copy, PartialEq, Eq, Structural)]
pub struct M2cTarget {
    /// The physical channel.
    pub channel_id: u32,
    /// The class of the point on that channel.
    pub point_type: PointType,
    /// The point on that channel.
    pub point_id: u32,
}

/// Physical address of one point on the shared-memory point plane.
#[derive(Debug, Clone, Copy, PartialEq, Eq, Structural)]
pub struct ChannelPointAddress {
    /// The physical channel.
    pub channel_id: u32,
    /// The class of the point on the plane.
    pub kind: PointKind,
    /// The point on that channel.
    pub point_id: u32,
}

/// Channel, class and point that feed a measurement.
pub type C2mSource = (u32, PointType, u32);

/// What a routing snapshot says.
pub struct RoutingView {
    /// The physical source of each measurement, by instance and point.
    pub c2m_reverse: Map<(u32, u32), C2mSource>,
    /// The physical target of each output, by instance, class and point.
    pub m2c: Map<(u32, PointType, u32), M2cTarget>,
}

/// The source that feeds one measurement, if one is routed.
pub open spec fn c2m_source(routing: RoutingView, instance_id: u32, point_id: u32) -> Option<
    C2mSource,
> {
    if routing.c2m_reverse.contains_key((instance_id, point_id)) {
        Some(routing.c2m_reverse[(instance_id, point_id)])
    } else {
        None
    }
}

/// The target that one output drives, if one is routed.
pub open spec fn m2c_target(
    routing: RoutingView,
    instance_id: u32,
    point_type: PointType,
    point_id: u32,
) -> Option<M2cTarget> {
    if routing.m2c.contains_key((instance_id, point_type, point_id)) {
        Some(routing.m2c[(instance_id, point_type, point_id)])
    } else {
        None
    }
}

/// The plane class of a routed measurement. An output class is no measurement.
pub open spec fn measurement_kind(point_type: PointType) -> Option<PointKind> {
    match point_type {
        PointType::Telemetry => Some(PointKind::Telemetry),
        PointType::Signal => Some(PointKind::Status),
        PointType::Control | PointType::Adjustment => None,
    }
}

/// The plane class of a routed output. A measured class is no output.
pub open spec fn action_kind(point_type: PointType) -> Option<PointKind> {
    match point_type {
        PointType::Control => Some(PointKind::Command),
        PointType::Adjustment => Some(PointKind::Action),
        PointType::Telemetry | PointType::Signal => None,
    }
}

/// The address of a measurement whose routed source is `source`.
pub open spec fn measurement_address(source: Option<C2mSource>) -> Option<ChannelPointAddress> {
    match source {
        Some((channel_id, point_type, point_id)) => match measurement_kind(point_type) {
            Some(kind) => Some(ChannelPointAddress { channel_id, kind, point_id }),
            None => None,
        },
        None => None,
    }
}

/// The address of an output whose routed target is `target`.
pub open spec fn action_address(target: Option<M2cTarget>) -> Option<ChannelPointAddress> {
    match target {
        Some(target) => match action_kind(target.point_type) {
            Some(kind) => Some(
                ChannelPointAddress {
                    channel_id: target.channel_id,
                    kind,
                    point_id: target.point_id,
                },
            ),
            None => None,
        },
        None => None,
    }
}

/// The target of an output point: its discrete route, or else its analogue one.
pub open spec fn output_target(
    routing: RoutingView,
    instance_id: u32,
    point_id: u32,
) -> Option<M2cTarget> {
    match m2c_target(routing, instance_id, PointType::Control, point_id) {
        Some(target) => Some(target),
        None => m2c_target(routing, instance_id, PointType::Adjustment, point_id),
    }
}

/// Where one logical instance point lives on the point plane, if anywhere.
/// Class `0` is a measurement, every other class an output.
pub open spec fn resolved(
    routing: RoutingView,
    instance_id: u32,
    instance_type: u8,
    point_id: u32,
) -> Option<ChannelPointAddress> {
    if instance_type == 0 {
        measurement_address(c2m_source(routing, instance_id, point_id))
    } else {
        action_address(output_target(routing, instance_id, point_id))
    }
}

/// The number under which the tables keep a class.
spec fn class_code(point_type: PointType) -> u8 {
    match point_type {
        PointType::Telemetry => 0,
        PointType::Signal => 1,
        PointType::Control => 2,
        PointType::Adjustment => 3,
    }
}

fn encode_class(point_type: PointType) -> (code: u8)
    ensures
        code == class_code(point_type),
{
    match point_type {
        PointType::Telemetry => 0,
        PointType::Signal => 1,
        PointType::Control => 2,
        PointType::Adjustment => 3,
    }
}

/// Routing snapshot owned by the service that composes the reads.
pub struct RoutingCache {
    c2m_reverse: PointTable<C2mSource>,
    m2c: PointTable<M2cTarget>,
}

impl View for RoutingCache {
    type V = RoutingView;

    closed spec fn view(&self) -> RoutingView {
        RoutingView {
            c2m_reverse: Map::new(
                |key: (u32, u32)| self.c2m_reverse@.contains_key((key.0, 0u8, key.1)),
                |key: (u32, u32)| self.c2m_reverse@[(key.0, 0u8, key.1)],
            ),
            m2c: Map::new(
                |key: (u32, PointType, u32)|
                    self.m2c@.contains_key((key.0, class_code(key.1), key.2)),
                |key: (u32, PointType, u32)| self.m2c@[(key.0, class_code(key.1), key.2)],
            ),
        }
    }
}

impl RoutingCache {
    /// Creates a snapshot without routes.
    pub fn new() -> (cache: Self)
        ensures
            cache@.c2m_reverse == Map::<(u32, u32), C2mSource>::empty(),
            cache@.m2c == Map::<(u32, PointType, u32), M2cTarget>::empty(),
    {
        let cache = RoutingCache { c2m_reverse: PointTable::new(), m2c: PointTable::new() };
        assert(cache@.c2m_reverse =~= Map::<(u32, u32), C2mSource>::empty());
        assert(cache@.m2c =~= Map::<(u32, PointType, u32), M2cTarget>::empty());
        cache
    }

    /// Routes a measurement to its source, in place of any route it had.
    pub fn set_c2m_reverse(&mut self, instance_id: u32, point_id: u32, source: C2mSource)
        ensures
            final(self)@.c2m_reverse == old(self)@.c2m_reverse.insert(
                (instance_id, point_id),
                source,
            ),
            final(self)@.m2c == old(self)@.m2c,
    {
        self.c2m_reverse.insert((instance_id, 0, point_id), source);
        assert(self@.c2m_reverse =~= old(self)@.c2m_reverse.insert((instance_id, point_id), source));
        assert(self@.m2c =~= old(self)@.m2c);
    }

    /// Routes an output to its target, in place of any route it had.
    pub fn set_m2c(
        &mut self,
        instance_id: u32,
        point_type: PointType,
        point_id: u32,
        target: M2cTarget,
    )
        ensures
            final(self)@.m2c == old(self)@.m2c.insert((instance_id, point_type, point_id), target),
            final(self)@.c2m_reverse == old(self)@.c2m_reverse,
    {
        self.m2c.insert((instance_id, encode_class(point_type), point_id), target);
        assert(self@.m2c =~= old(self)@.m2c.insert((instance_id, point_type, point_id), target));
        assert(self@.c2m_reverse =~= old(self)@.c2m_reverse);
    }

    /// Returns the channel, class and point that feed one measurement.
    pub fn lookup_c2m_reverse(&self, instance_id: u32, point_id: u32) -> (source: Option<C2mSource>)
        ensures
            source == c2m_source(self@, instance_id, point_id),
    {
        self.c2m_reverse.get((instance_id, 0, point_id))
    }

    /// Returns the physical point that one output of the given class drives.
    pub fn lookup_m2c_by_parts(
        &self,
        instance_id: u32,
        point_type: PointType,
        point_id: u32,
    ) -> (target: Option<M2cTarget>)
        ensures
            target == m2c_target(self@, instance_id, point_type, point_id),
    {
        self.m2c.get((instance_id, encode_class(point_type), point_id))
    }

    /// Resolves one logical instance point to its address on the point plane.
    pub fn resolve(
        &self,
        instance_id: u32,
        instance_type: u8,
        point_id: u32,
    ) -> (address: Option<ChannelPointAddress>)
        ensures
            address == resolved(self@, instance_id, instance_type, point_id),
    {
        if instance_type == 0 {
            let (channel_id, point_type, channel_point_id) = match self.lookup_c2m_reverse(
                instance_id,
                point_id,
            ) {
                Some(source) => source,
                None => return None,
            };
            let kind = match point_type {
                PointType::Telemetry => PointKind::Telemetry,
                PointType::Signal => PointKind::Status,
                PointType::Control | PointType::Adjustment => return None,
            };
            Some(ChannelPointAddress { channel_id, kind, point_id: channel_point_id })
        } else {
            let target = match self.lookup_m2c_by_parts(instance_id, PointType::Control, point_id) {
                Some(target) => target,
                None => match self.lookup_m2c_by_parts(
                    instance_id,
                    PointType::Adjustment,
                    point_id,
                ) {
                    Some(target) => target,
                    None => return None,
                },
            };
            let kind = match target.point_type {
                PointType::Control => PointKind::Command,
                PointType::Adjustment => PointKind::Action,
                PointType::Telemetry | PointType::Signal => return None,
            };
            Some(
                ChannelPointAddress {
                    channel_id: target.channel_id,
                    kind,
                    point_id: target.point_id,
                },
            )
        }
    }
}

/// A measurement resolves to a measured class only, and an output to an output
/// class only, whatever the snapshot routes.
pub proof fn law_resolution_keeps_direction(
    routing: RoutingView,
    instance_id: u32,
    instance_type: u8,
    point_id: u32,
)
    ensures
        resolved(routing, instance_id, instance_type, point_id) matches Some(address) ==> {
            if instance_type == 0 {
                address.kind == PointKind::Telemetry || address.kind == PointKind::Status
            } else {
                address.kind == PointKind::Command || address.kind == PointKind::Action
            }
        },
{
}

/// Measurements are resolved from the measurement routes alone, and outputs
/// from the output routes alone.
pub proof fn law_resolution_reads_one_table(
    routing: RoutingView,
    other: RoutingView,
    instance_id: u32,
    instance_type: u8,
    point_id: u32,
)
    requires
        instance_type == 0 ==> routing.c2m_reverse == other.c2m_reverse,
        instance_type != 0 ==> routing.m2c == other.m2c,
    ensures
        resolved(routing, instance_id, instance_type, point_id) == resolved(
            other,
            instance_id,
            instance_type,
            point_id,
        ),
{
}

/// A discrete route hides the analogue one: while an output has a discrete
/// route, no analogue route of any point changes where it resolves.
pub proof fn law_discrete_route_wins(
    routing: RoutingView,
    instance_id: u32,
    instance_type: u8,
    point_id: u32,
    analogue_instance: u32,
    analogue_point: u32,
    target: M2cTarget,
)
    requires
        instance_type != 0,
        m2c_target(routing, instance_id, PointType::Control, point_id) is Some,
    ensures
        resolved(
            RoutingView {
                c2m_reverse: routing.c2m_reverse,
                m2c: routing.m2c.insert(
                    (analogue_instance, PointType::Adjustment, analogue_point),
                    target,
                ),
            },
            instance_id,
            instance_type,
            point_id,
        ) == resolved(routing, instance_id, instance_type, point_id),
{
}

} // verus!
