//! What composing and validating a generation does, and when it succeeds.

use crate::authority::{refusal_of, PlaneEvent, PlaneLease, PlaneLeases, PlaneSession};
use crate::laws::text::{is_decimal, is_hex, lemma_is_decimal, lemma_is_hex};
use crate::port::{PortError, PortErrorKind, PortResult};
use crate::read_topology::{
    acquire_authority_pair, validate_composition, validate_config_hash, PlaneAnswers,
    ReadTopologyView, ShmReadTopologyGeneration,
};
use crate::shm_client::{
    ChannelHealthManifest, ChannelPointManifest, ReconnectingSlotSource, ShmChannelHealthReader,
    ShmClientConfig, ShmPlaneAccess,
};
use crate::shm_path::{path_order, PathOrder, ShmPath};
use std::sync::Arc;
use vstd::prelude::*;

verus! {

/// `message` names the plane and both hashes, each with sixteen digits.
pub open spec fn names_both_hashes(
    message: Seq<char>,
    label: Seq<char>,
    configured: u64,
    manifest: u64,
) -> bool {
    exists|one: Seq<char>, other: Seq<char>|
        {
            &&& #[trigger] is_hex(one, configured)
            &&& #[trigger] is_hex(other, manifest)
            &&& message == label + " SHM client hash 0x"@ + one
                + " does not match manifest hash 0x"@ + other
        }
}

/// A client's hash is accepted exactly when it is that of the manifest. A
/// refusal is permanent, and names the plane and both hashes.
pub proof fn law_hash_must_match(
    label: &str,
    configured: u64,
    manifest: u64,
    result: PortResult<()>,
    kind: PortErrorKind,
    message: &String,
    retryable: bool,
)
    requires
        call_ensures(validate_config_hash, (label, configured, manifest), result),
        result matches Err(error) ==> {
            &&& call_ensures(PortError::kind, (&error,), kind)
            &&& call_ensures(PortError::message, (&error,), message)
            &&& call_ensures(PortError::is_retryable, (&error,), retryable)
        },
    ensures
        result is Ok <==> configured == manifest,
        result is Err ==> {
            &&& kind == PortErrorKind::InvalidData
            &&& !retryable
            &&& names_both_hashes(message@, label@, configured, manifest)
        },
{
    lemma_is_hex(configured);
    lemma_is_hex(manifest);
}

/// Two configurations and two manifests compose exactly when the planes are at
/// different paths and each client expects the hash of its manifest. A refusal
/// is permanent. It speaks of the paths first, then of the point plane, then of
/// the health plane.
pub proof fn law_composition_must_agree(
    order: PathOrder,
    point_config: &ShmClientConfig,
    health_config: &ShmClientConfig,
    point_manifest: &ChannelPointManifest,
    health_manifest: &ChannelHealthManifest,
    point_expected: u64,
    health_expected: u64,
    point_hash: u64,
    health_hash: u64,
    result: PortResult<()>,
    kind: PortErrorKind,
    message: &String,
    retryable: bool,
)
    requires
        call_ensures(ShmClientConfig::expected_layout_hash, (point_config,), point_expected),
        call_ensures(ShmClientConfig::expected_layout_hash, (health_config,), health_expected),
        call_ensures(ChannelPointManifest::layout_hash, (point_manifest,), point_hash),
        call_ensures(ChannelHealthManifest::layout_hash, (health_manifest,), health_hash),
        call_ensures(
            validate_composition,
            (order, point_config, health_config, point_manifest, health_manifest),
            result,
        ),
        result matches Err(error) ==> {
            &&& call_ensures(PortError::kind, (&error,), kind)
            &&& call_ensures(PortError::message, (&error,), message)
            &&& call_ensures(PortError::is_retryable, (&error,), retryable)
        },
    ensures
        result is Ok <==> (!(order == PathOrder::Same) && point_expected == point_hash
            && health_expected == health_hash),
        result is Err ==> kind == PortErrorKind::InvalidData && !retryable,
        order == PathOrder::Same ==> message@
            == "point and channel-health SHM paths must be distinct"@,
        !(order == PathOrder::Same) && point_expected != point_hash ==> names_both_hashes(
            message@,
            "point"@,
            point_expected,
            point_hash,
        ),
        !(order == PathOrder::Same) && point_expected == point_hash && health_expected
            != health_hash ==> names_both_hashes(
            message@,
            "channel-health"@,
            health_expected,
            health_hash,
        ),
{
    lemma_is_hex(point_expected);
    lemma_is_hex(point_hash);
    lemma_is_hex(health_expected);
    lemma_is_hex(health_hash);
}

/// A lazy generation is composed exactly when the planes are at different paths
/// and each client expects the hash of its manifest, and is refused as the
/// composition is.
pub proof fn law_lazy_generation_must_agree(
    point_config: ShmClientConfig,
    health_config: ShmClientConfig,
    point_manifest: Arc<ChannelPointManifest>,
    health_manifest: Arc<ChannelHealthManifest>,
    point_path: &ShmPath,
    health_path: &ShmPath,
    order: PathOrder,
    point_expected: u64,
    health_expected: u64,
    point_hash: u64,
    health_hash: u64,
    result: PortResult<ShmReadTopologyGeneration>,
    kind: PortErrorKind,
    message: &String,
    retryable: bool,
)
    requires
        call_ensures(ShmClientConfig::path, (&point_config,), point_path),
        call_ensures(ShmClientConfig::path, (&health_config,), health_path),
        call_ensures(ShmPath::compare, (point_path, health_path), order),
        call_ensures(ShmClientConfig::expected_layout_hash, (&point_config,), point_expected),
        call_ensures(ShmClientConfig::expected_layout_hash, (&health_config,), health_expected),
        call_ensures(ChannelPointManifest::layout_hash, (&*point_manifest,), point_hash),
        call_ensures(ChannelHealthManifest::layout_hash, (&*health_manifest,), health_hash),
        call_ensures(
            ShmReadTopologyGeneration::new_lazy,
            (point_config, health_config, point_manifest, health_manifest),
            result,
        ),
        result matches Err(error) ==> {
            &&& call_ensures(PortError::kind, (&error,), kind)
            &&& call_ensures(PortError::message, (&error,), message)
            &&& call_ensures(PortError::is_retryable, (&error,), retryable)
        },
    ensures
        result is Ok <==> (!(order == PathOrder::Same) && point_expected == point_hash
            && health_expected == health_hash),
        result is Err ==> kind == PortErrorKind::InvalidData && !retryable,
        order == PathOrder::Same ==> message@
            == "point and channel-health SHM paths must be distinct"@,
        !(order == PathOrder::Same) && point_expected != point_hash ==> names_both_hashes(
            message@,
            "point"@,
            point_expected,
            point_hash,
        ),
        !(order == PathOrder::Same) && point_expected == point_hash && health_expected
            != health_hash ==> names_both_hashes(
            message@,
            "channel-health"@,
            health_expected,
            health_hash,
        ),
{
    lemma_is_hex(point_expected);
    lemma_is_hex(point_hash);
    lemma_is_hex(health_expected);
    lemma_is_hex(health_hash);
}

/// `generation` reads the two planes of these configurations with these
/// manifests, and locks them at the paths of the configurations.
pub open spec fn made_of(
    generation: ShmReadTopologyGeneration,
    point_config: ShmClientConfig,
    health_config: ShmClientConfig,
    point_manifest: ChannelPointManifest,
    health_manifest: ChannelHealthManifest,
) -> bool {
    &&& generation@.point_source@ == point_config
    &&& generation@.point_manifest == point_manifest
    &&& generation@.channel_health@.config == health_config
    &&& generation@.channel_health@.manifest == health_manifest
    &&& generation@.health_manifest == health_manifest
    &&& generation@.point_path@ == point_config@.path@
    &&& generation@.health_path@ == health_config@.path@
}

/// A lazy generation hands out exactly the configurations and manifests that it
/// was composed of.
pub proof fn law_lazy_generation_keeps_its_parts(
    point_config: ShmClientConfig,
    health_config: ShmClientConfig,
    point_manifest: Arc<ChannelPointManifest>,
    health_manifest: Arc<ChannelHealthManifest>,
    generation: ShmReadTopologyGeneration,
    source: &Arc<ReconnectingSlotSource>,
    points: &Arc<ChannelPointManifest>,
    reader: &Arc<ShmChannelHealthReader>,
    health: &Arc<ChannelHealthManifest>,
    source_config: &ShmClientConfig,
    reader_config: &ShmClientConfig,
    reader_manifest: &Arc<ChannelHealthManifest>,
)
    requires
        call_ensures(
            ShmReadTopologyGeneration::new_lazy,
            (point_config, health_config, point_manifest, health_manifest),
            Ok(generation),
        ),
        call_ensures(ShmReadTopologyGeneration::point_source, (&generation,), source),
        call_ensures(ShmReadTopologyGeneration::point_manifest, (&generation,), points),
        call_ensures(ShmReadTopologyGeneration::channel_health, (&generation,), reader),
        call_ensures(ShmReadTopologyGeneration::health_manifest, (&generation,), health),
        call_ensures(ReconnectingSlotSource::config, (&**source,), source_config),
        call_ensures(ShmChannelHealthReader::config, (&**reader,), reader_config),
        call_ensures(ShmChannelHealthReader::manifest, (&**reader,), reader_manifest),
    ensures
        *source_config == point_config,
        **points == *point_manifest,
        *reader_config == health_config,
        **reader_manifest == *health_manifest,
        **health == *health_manifest,
        made_of(generation, point_config, health_config, *point_manifest, *health_manifest),
{
}

/// The two planes of any generation are different planes, each client expects
/// the hash of its manifest, and the planes are locked at the paths that are
/// read.
pub proof fn law_every_generation_is_coherent(
    generation: &ShmReadTopologyGeneration,
    source: &Arc<ReconnectingSlotSource>,
    points: &Arc<ChannelPointManifest>,
    reader: &Arc<ShmChannelHealthReader>,
    health: &Arc<ChannelHealthManifest>,
    point_config: &ShmClientConfig,
    health_config: &ShmClientConfig,
    point_expected: u64,
    health_expected: u64,
    point_hash: u64,
    health_hash: u64,
    point_path: &ShmPath,
    health_path: &ShmPath,
    order: PathOrder,
)
    requires
        call_ensures(ShmReadTopologyGeneration::point_source, (generation,), source),
        call_ensures(ShmReadTopologyGeneration::point_manifest, (generation,), points),
        call_ensures(ShmReadTopologyGeneration::channel_health, (generation,), reader),
        call_ensures(ShmReadTopologyGeneration::health_manifest, (generation,), health),
        call_ensures(ReconnectingSlotSource::config, (&**source,), point_config),
        call_ensures(ShmChannelHealthReader::config, (&**reader,), health_config),
        call_ensures(ShmClientConfig::expected_layout_hash, (point_config,), point_expected),
        call_ensures(ShmClientConfig::expected_layout_hash, (health_config,), health_expected),
        call_ensures(ChannelPointManifest::layout_hash, (&**points,), point_hash),
        call_ensures(ChannelHealthManifest::layout_hash, (&**health,), health_hash),
        call_ensures(ShmClientConfig::path, (point_config,), point_path),
        call_ensures(ShmClientConfig::path, (health_config,), health_path),
        call_ensures(ShmPath::compare, (point_path, health_path), order),
    ensures
        !(order == PathOrder::Same),
        point_expected == point_hash,
        health_expected == health_hash,
        generation@.point_path@ == point_path@,
        generation@.health_path@ == health_path@,
        reader@.manifest == **health,
{
}

/// The debug form shows the two hashes and the two sizes, and nothing else.
pub proof fn law_debug_form_shows_the_layouts(
    generation: &ShmReadTopologyGeneration,
    points: &Arc<ChannelPointManifest>,
    health: &Arc<ChannelHealthManifest>,
    point_hash: u64,
    point_count: usize,
    health_hash: u64,
    health_count: usize,
    text: String,
)
    requires
        call_ensures(ShmReadTopologyGeneration::point_manifest, (generation,), points),
        call_ensures(ShmReadTopologyGeneration::health_manifest, (generation,), health),
        call_ensures(ChannelPointManifest::layout_hash, (&**points,), point_hash),
        call_ensures(ChannelPointManifest::slot_count, (&**points,), point_count),
        call_ensures(ChannelHealthManifest::layout_hash, (&**health,), health_hash),
        call_ensures(ChannelHealthManifest::slot_count, (&**health,), health_count),
        call_ensures(ShmReadTopologyGeneration::to_debug_string, (generation,), text),
    ensures
        exists|one: Seq<char>, two: Seq<char>, three: Seq<char>, four: Seq<char>|
            {
                &&& #[trigger] is_decimal(one, point_hash as nat)
                &&& #[trigger] is_decimal(two, point_count as nat)
                &&& #[trigger] is_decimal(three, health_hash as nat)
                &&& #[trigger] is_decimal(four, health_count as nat)
                &&& text@ == "ShmReadTopologyGeneration { point_layout_hash: "@ + one
                    + ", point_slot_count: "@ + two + ", health_layout_hash: "@ + three
                    + ", health_slot_count: "@ + four + " }"@
            },
{
    lemma_is_decimal(point_hash as nat);
    lemma_is_decimal(point_count as nat);
    lemma_is_decimal(health_hash as nat);
    lemma_is_decimal(health_count as nat);
}

/// What a session records when a lease is asked for, once and with the answer
/// that came back.
pub proof fn law_session_records_leases<P: ShmPlaneAccess>(
    session: &mut PlaneSession<P>,
    path: &ShmPath,
    reply: PortResult<PlaneLease<P::Lease>>,
)
    requires
        call_ensures(PlaneSession::<P>::acquire, (session, path), reply),
    ensures
        final(session)@.planes == old(session)@.planes,
        reply matches Ok(granted) ==> {
            &&& final(session)@.events == old(session)@.events.push(
                PlaneEvent::Lease { path: *path, refusal: None },
            )
            &&& granted@.path == *path
            &&& call_ensures(P::acquire, (&old(session)@.planes, path), Ok(granted@.lease))
        },
        reply matches Err(error) ==> {
            &&& final(session)@.events == old(session)@.events.push(
                PlaneEvent::Lease { path: *path, refusal: Some(error) },
            )
            &&& call_ensures(P::acquire, (&old(session)@.planes, path), Err(error))
        },
{
}

/// What a session records when the layout of the point plane is checked.
pub proof fn law_session_records_point_checks<P: ShmPlaneAccess>(
    session: &mut PlaneSession<P>,
    source: &ReconnectingSlotSource,
    slot_count: usize,
    reply: PortResult<()>,
)
    requires
        call_ensures(
            PlaneSession::<P>::validate_point_layout,
            (session, source, slot_count),
            reply,
        ),
    ensures
        final(session)@.planes == old(session)@.planes,
        call_ensures(
            P::validate_point_layout,
            (&old(session)@.planes, source, slot_count),
            reply,
        ),
        reply is Ok ==> final(session)@.events == old(session)@.events.push(
            PlaneEvent::PointLayout { source: *source, slot_count, refusal: None },
        ),
        reply matches Err(error) ==> final(session)@.events == old(session)@.events.push(
            PlaneEvent::PointLayout { source: *source, slot_count, refusal: Some(error) },
        ),
{
}

/// What a session records when the layout of the health plane is checked.
pub proof fn law_session_records_health_checks<P: ShmPlaneAccess>(
    session: &mut PlaneSession<P>,
    reader: &ShmChannelHealthReader,
    reply: PortResult<()>,
)
    requires
        call_ensures(PlaneSession::<P>::validate_health_layout, (session, reader), reply),
    ensures
        final(session)@.planes == old(session)@.planes,
        call_ensures(P::validate_health_layout, (&old(session)@.planes, reader), reply),
        reply is Ok ==> final(session)@.events == old(session)@.events.push(
            PlaneEvent::HealthLayout { reader: *reader, refusal: None },
        ),
        reply matches Err(error) ==> final(session)@.events == old(session)@.events.push(
            PlaneEvent::HealthLayout { reader: *reader, refusal: Some(error) },
        ),
{
}

/// The planes of a generation and what is checked of them: the paths in the
/// order in which they are locked, and the two layouts.
pub struct LockedPlanes {
    /// The path that is locked first.
    pub first: ShmPath,
    /// The path that is locked second.
    pub second: ShmPath,
    /// The source of the point plane.
    pub source: ReconnectingSlotSource,
    /// The number of slots that the point plane must have.
    pub slot_count: usize,
    /// The reader of the health plane.
    pub reader: ShmChannelHealthReader,
}

impl LockedPlanes {
    /// These are the planes of `generation`, where its point path stands to its
    /// health path as `stands` says: the lower path is locked first.
    pub open spec fn belong_to(self, generation: ReadTopologyView, stands: PathOrder) -> bool {
        &&& stands == PathOrder::After ==> self.first == generation.health_path && self.second
            == generation.point_path
        &&& !(stands == PathOrder::After) ==> self.first == generation.point_path && self.second
            == generation.health_path
        &&& self.source == generation.point_source
        &&& self.slot_count == generation.point_manifest@.slot_count
        &&& self.reader == generation.channel_health
    }

    /// What is on record when everything is granted and confirmed: both leases,
    /// both layouts, what is published, and both leases given back.
    pub open spec fn accepted(self, published: Seq<PlaneEvent>) -> Seq<PlaneEvent> {
        seq![
            PlaneEvent::Lease { path: self.first, refusal: None },
            PlaneEvent::Lease { path: self.second, refusal: None },
            PlaneEvent::PointLayout {
                source: self.source,
                slot_count: self.slot_count,
                refusal: None,
            },
            PlaneEvent::HealthLayout { reader: self.reader, refusal: None },
        ] + published + seq![
            PlaneEvent::Release { path: self.second },
            PlaneEvent::Release { path: self.first },
        ]
    }

    /// `added` is on record when the first refusal is `error`: nothing is asked
    /// for after it, and what was granted is given back.
    pub open spec fn refused(self, error: PortError, added: Seq<PlaneEvent>) -> bool {
        let first = PlaneEvent::Lease { path: self.first, refusal: None };
        let second = PlaneEvent::Lease { path: self.second, refusal: None };
        let give_first = PlaneEvent::Release { path: self.first };
        let give_second = PlaneEvent::Release { path: self.second };
        ||| added == seq![PlaneEvent::Lease { path: self.first, refusal: Some(error) }]
        ||| added == seq![
            first,
            PlaneEvent::Lease { path: self.second, refusal: Some(error) },
            give_first,
        ]
        ||| added == seq![
            first,
            second,
            PlaneEvent::PointLayout {
                source: self.source,
                slot_count: self.slot_count,
                refusal: Some(error),
            },
            give_second,
            give_first,
        ]
        ||| added == seq![
            first,
            second,
            PlaneEvent::PointLayout {
                source: self.source,
                slot_count: self.slot_count,
                refusal: None,
            },
            PlaneEvent::HealthLayout { reader: self.reader, refusal: Some(error) },
            give_second,
            give_first,
        ]
    }

    /// The planes may grant both leases and confirm both layouts.
    pub open spec fn may_accept<P: ShmPlaneAccess>(self, planes: &P) -> bool {
        &&& exists|reply: PortResult<P::Lease>| #[trigger]
            call_ensures(P::acquire, (planes, &self.first), reply) && reply is Ok
        &&& exists|reply: PortResult<P::Lease>| #[trigger]
            call_ensures(P::acquire, (planes, &self.second), reply) && reply is Ok
        &&& call_ensures(
            P::validate_point_layout,
            (planes, &self.source, self.slot_count),
            Ok(()),
        )
        &&& call_ensures(P::validate_health_layout, (planes, &self.reader), Ok(()))
    }

    /// The planes may refuse one of the four requests with `error`.
    pub open spec fn may_refuse<P: ShmPlaneAccess>(self, planes: &P, error: PortError) -> bool {
        ||| call_ensures(P::acquire, (planes, &self.first), Err(error))
        ||| call_ensures(P::acquire, (planes, &self.second), Err(error))
        ||| call_ensures(
            P::validate_point_layout,
            (planes, &self.source, self.slot_count),
            Err(error),
        )
        ||| call_ensures(P::validate_health_layout, (planes, &self.reader), Err(error))
    }

    /// What a validation that ends with `result` and does `published` on success
    /// leaves on record, and what the planes answered.
    pub open spec fn validated<T, P: ShmPlaneAccess>(
        self,
        planes: &P,
        before: Seq<PlaneEvent>,
        after: Seq<PlaneEvent>,
        result: PortResult<T>,
        published: Seq<PlaneEvent>,
    ) -> bool {
        match result {
            Ok(_) => after == before + self.accepted(published) && self.may_accept(planes),
            Err(error) => self.may_refuse(planes, error) && exists|added: Seq<PlaneEvent>| #[trigger]
                self.refused(error, added) && after == before + added,
        }
    }
}

pub(crate) proof fn lemma_validated<T, P: ShmPlaneAccess>(
    locked: LockedPlanes,
    generation: ReadTopologyView,
    planes: &P,
    answers: PlaneAnswers,
    before: Seq<PlaneEvent>,
    after: Seq<PlaneEvent>,
    result: PortResult<T>,
    published: Seq<PlaneEvent>,
)
    requires
        locked.belong_to(
            generation,
            path_order(generation.point_path@, generation.health_path@),
        ),
        answers.possible(planes, generation),
        refusal_of(result) == answers.refusal(),
        after == before + answers.events(generation, published),
    ensures
        locked.validated(planes, before, after, result, published),
{
    let added = answers.events(generation, published);
    match result {
        Ok(_) => {
            assert(added =~= locked.accepted(published));
            let point = choose|reply: PortResult<()>|
                {
                    &&& #[trigger] call_ensures(
                        P::validate_point_layout,
                        (planes, &generation.point_source, generation.point_manifest@.slot_count),
                        reply,
                    )
                    &&& answers.point == refusal_of(reply)
                };
            let health = choose|reply: PortResult<()>|
                {
                    &&& #[trigger] call_ensures(
                        P::validate_health_layout,
                        (planes, &generation.channel_health),
                        reply,
                    )
                    &&& answers.health == refusal_of(reply)
                };
            assert(point->Ok_0 == ());
            assert(health->Ok_0 == ());
            assert(point == Ok::<(), PortError>(()));
            assert(health == Ok::<(), PortError>(()));
        },
        Err(error) => {
            if answers.first is Some {
                assert(added =~= seq![
                    PlaneEvent::Lease { path: locked.first, refusal: Some(error) },
                ]);
            } else if answers.second is Some {
                assert(added =~= seq![
                    PlaneEvent::Lease { path: locked.first, refusal: None },
                    PlaneEvent::Lease { path: locked.second, refusal: Some(error) },
                    PlaneEvent::Release { path: locked.first },
                ]);
            } else if answers.point is Some {
                assert(added =~= seq![
                    PlaneEvent::Lease { path: locked.first, refusal: None },
                    PlaneEvent::Lease { path: locked.second, refusal: None },
                    PlaneEvent::PointLayout {
                        source: locked.source,
                        slot_count: locked.slot_count,
                        refusal: Some(error),
                    },
                    PlaneEvent::Release { path: locked.second },
                    PlaneEvent::Release { path: locked.first },
                ]);
            } else {
                assert(added =~= seq![
                    PlaneEvent::Lease { path: locked.first, refusal: None },
                    PlaneEvent::Lease { path: locked.second, refusal: None },
                    PlaneEvent::PointLayout {
                        source: locked.source,
                        slot_count: locked.slot_count,
                        refusal: None,
                    },
                    PlaneEvent::HealthLayout { reader: locked.reader, refusal: Some(error) },
                    PlaneEvent::Release { path: locked.second },
                    PlaneEvent::Release { path: locked.first },
                ]);
            }
            assert(locked.refused(error, added));
        },
    }
}

/// A validation locks both planes, the lower path first, then checks the point
/// layout with the slots of the manifest, then the health layout, and gives the
/// leases back, the second first. It succeeds when everything is granted and
/// confirmed. The first refusal ends it, is what comes back, and leaves no lease
/// held.
pub proof fn law_validation_locks_and_checks_both_planes<P: ShmPlaneAccess>(
    generation: &ShmReadTopologyGeneration,
    session: &mut PlaneSession<P>,
    stands: PathOrder,
    locked: LockedPlanes,
    result: PortResult<()>,
)
    requires
        call_ensures(
            ShmPath::compare,
            (&generation@.point_path, &generation@.health_path),
            stands,
        ),
        locked.belong_to(generation@, stands),
        call_ensures(
            ShmReadTopologyGeneration::validate_layouts::<P>,
            (generation, session),
            result,
        ),
    ensures
        final(session)@.planes == old(session)@.planes,
        locked.validated(
            &old(session)@.planes,
            old(session)@.events,
            final(session)@.events,
            result,
            Seq::empty(),
        ),
{
    let answers = choose|answers: PlaneAnswers|
        {
            &&& #[trigger] answers.possible(&old(session)@.planes, generation@)
            &&& final(session)@.events == old(session)@.events + answers.events(
                generation@,
                Seq::empty(),
            )
            &&& refusal_of(result) == answers.refusal()
        };
    lemma_validated(
        locked,
        generation@,
        &old(session)@.planes,
        answers,
        old(session)@.events,
        final(session)@.events,
        result,
        Seq::empty(),
    );
}

/// A publication is run once, after everything was granted and confirmed and
/// before any lease is given back, and what it returns comes back. Where
/// anything is refused it is not run.
pub proof fn law_publication_runs_under_both_leases<
    T,
    P: ShmPlaneAccess,
    F: FnOnce(&PlaneLeases<P::Lease>) -> T,
>(
    generation: &ShmReadTopologyGeneration,
    session: &mut PlaneSession<P>,
    publish: F,
    stands: PathOrder,
    locked: LockedPlanes,
    result: PortResult<T>,
)
    requires
        call_ensures(
            ShmPath::compare,
            (&generation@.point_path, &generation@.health_path),
            stands,
        ),
        locked.belong_to(generation@, stands),
        call_ensures(
            ShmReadTopologyGeneration::with_validated_authority::<T, P, F>,
            (generation, session, publish),
            result,
        ),
    ensures
        final(session)@.planes == old(session)@.planes,
        locked.validated(
            &old(session)@.planes,
            old(session)@.events,
            final(session)@.events,
            result,
            seq![PlaneEvent::Publication],
        ),
        result matches Ok(published) ==> exists|held: PlaneLeases<P::Lease>|
            {
                &&& #[trigger] call_ensures(publish, (&held,), published)
                &&& held.0@.path == locked.first
                &&& held.1@.path == locked.second
                &&& call_ensures(
                    P::acquire,
                    (&old(session)@.planes, &locked.first),
                    Ok(held.0@.lease),
                )
                &&& call_ensures(
                    P::acquire,
                    (&old(session)@.planes, &locked.second),
                    Ok(held.1@.lease),
                )
            },
{
    let published = seq![PlaneEvent::Publication];
    let answers = choose|answers: PlaneAnswers|
        {
            &&& #[trigger] answers.possible(&old(session)@.planes, generation@)
            &&& final(session)@.events == old(session)@.events + answers.events(
                generation@,
                seq![PlaneEvent::Publication],
            )
            &&& match answers.refusal() {
                None => result matches Ok(done) && generation.published_under_leases(
                    &old(session)@.planes,
                    publish,
                    done,
                ),
                Some(error) => result == Err::<T, PortError>(error),
            }
        };
    lemma_validated(
        locked,
        generation@,
        &old(session)@.planes,
        answers,
        old(session)@.events,
        final(session)@.events,
        result,
        published,
    );
}

/// Opening composes first, and refuses what does not compose without touching a
/// plane. What composes is validated, and comes back as it was composed.
pub proof fn law_opening_composes_and_validates<P: ShmPlaneAccess>(
    session: &mut PlaneSession<P>,
    point_config: ShmClientConfig,
    health_config: ShmClientConfig,
    point_manifest: Arc<ChannelPointManifest>,
    health_manifest: Arc<ChannelHealthManifest>,
    point_path: &ShmPath,
    health_path: &ShmPath,
    order: PathOrder,
    point_expected: u64,
    health_expected: u64,
    point_hash: u64,
    health_hash: u64,
    result: PortResult<ShmReadTopologyGeneration>,
)
    requires
        call_ensures(ShmClientConfig::path, (&point_config,), point_path),
        call_ensures(ShmClientConfig::path, (&health_config,), health_path),
        call_ensures(ShmPath::compare, (point_path, health_path), order),
        call_ensures(ShmClientConfig::expected_layout_hash, (&point_config,), point_expected),
        call_ensures(ShmClientConfig::expected_layout_hash, (&health_config,), health_expected),
        call_ensures(ChannelPointManifest::layout_hash, (&*point_manifest,), point_hash),
        call_ensures(ChannelHealthManifest::layout_hash, (&*health_manifest,), health_hash),
        call_ensures(
            ShmReadTopologyGeneration::open::<P>,
            (session, point_config, health_config, point_manifest, health_manifest),
            result,
        ),
    ensures
        final(session)@.planes == old(session)@.planes,
        order == PathOrder::Same || point_expected != point_hash || health_expected != health_hash
            ==> {
            &&& final(session)@.events == old(session)@.events
            &&& result matches Err(error) && error@.kind == PortErrorKind::InvalidData
        },
        !(order == PathOrder::Same) && point_expected == point_hash && health_expected
            == health_hash ==> exists|locked: LockedPlanes|
            {
                &&& #[trigger] locked.validated(
                    &old(session)@.planes,
                    old(session)@.events,
                    final(session)@.events,
                    result,
                    Seq::empty(),
                )
                &&& locked.source@ == point_config
                &&& locked.slot_count == point_manifest@.slot_count
                &&& locked.reader@.config == health_config
                &&& locked.reader@.manifest == *health_manifest
                &&& order == PathOrder::After ==> locked.first@ == health_path@ && locked.second@
                    == point_path@
                &&& !(order == PathOrder::After) ==> locked.first@ == point_path@
                    && locked.second@ == health_path@
                &&& result matches Ok(generation) ==> {
                    &&& locked.belong_to(generation@, order)
                    &&& made_of(
                        generation,
                        point_config,
                        health_config,
                        *point_manifest,
                        *health_manifest,
                    )
                }
            },
{
    if !(order == PathOrder::Same) && point_expected == point_hash && health_expected
        == health_hash {
        let (candidate, answers) = choose|candidate: ReadTopologyView, answers: PlaneAnswers|
            {
                &&& #[trigger] answers.possible(&old(session)@.planes, candidate)
                &&& candidate.coherent()
                &&& candidate.composed_of(
                    point_config,
                    health_config,
                    *point_manifest,
                    *health_manifest,
                )
                &&& final(session)@.events == old(session)@.events + answers.events(
                    candidate,
                    Seq::empty(),
                )
                &&& match answers.refusal() {
                    None => result matches Ok(generation) && generation@ == candidate,
                    Some(error) => result == Err::<ShmReadTopologyGeneration, PortError>(error),
                }
            };
        let locked = LockedPlanes {
            first: if order == PathOrder::After {
                candidate.health_path
            } else {
                candidate.point_path
            },
            second: if order == PathOrder::After {
                candidate.point_path
            } else {
                candidate.health_path
            },
            source: candidate.point_source,
            slot_count: candidate.point_manifest@.slot_count,
            reader: candidate.channel_health,
        };
        lemma_validated(
            locked,
            candidate,
            &old(session)@.planes,
            answers,
            old(session)@.events,
            final(session)@.events,
            result,
            Seq::empty(),
        );
    }
}

/// Both leases are taken, the lower path first, or none stays held: the second
/// is asked for once the first was granted, and where it is refused the first
/// is given back. The refusal comes back.
pub proof fn law_leases_are_taken_lower_path_first<P: ShmPlaneAccess>(
    session: &mut PlaneSession<P>,
    point_path: &ShmPath,
    health_path: &ShmPath,
    stands: PathOrder,
    first: ShmPath,
    second: ShmPath,
    result: PortResult<PlaneLeases<P::Lease>>,
)
    requires
        call_ensures(ShmPath::compare, (point_path, health_path), stands),
        stands == PathOrder::After ==> first == *health_path && second == *point_path,
        !(stands == PathOrder::After) ==> first == *point_path && second == *health_path,
        call_ensures(
            acquire_authority_pair::<P>,
            (session, point_path, health_path),
            result,
        ),
    ensures
        final(session)@.planes == old(session)@.planes,
        result matches Ok(held) ==> {
            &&& final(session)@.events == old(session)@.events + seq![
                PlaneEvent::Lease { path: first, refusal: None },
                PlaneEvent::Lease { path: second, refusal: None },
            ]
            &&& held.0@.path == first
            &&& held.1@.path == second
            &&& call_ensures(P::acquire, (&old(session)@.planes, &first), Ok(held.0@.lease))
            &&& call_ensures(P::acquire, (&old(session)@.planes, &second), Ok(held.1@.lease))
        },
        result matches Err(error) ==> {
            ||| {
                &&& final(session)@.events == old(session)@.events + seq![
                    PlaneEvent::Lease { path: first, refusal: Some(error) },
                ]
                &&& call_ensures(P::acquire, (&old(session)@.planes, &first), Err(error))
            }
            ||| {
                &&& final(session)@.events == old(session)@.events + seq![
                    PlaneEvent::Lease { path: first, refusal: None },
                    PlaneEvent::Lease { path: second, refusal: Some(error) },
                    PlaneEvent::Release { path: first },
                ]
                &&& call_ensures(P::acquire, (&old(session)@.planes, &second), Err(error))
            }
        },
{
}

} // verus!
