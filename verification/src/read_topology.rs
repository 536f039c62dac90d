//! Coherent read-side publication of the point and channel-health planes.

use crate::authority::{
    held_after, refusal_of, PlaneEvent, PlaneLeases, PlaneSession, SlotIdentity,
};
use crate::port::{PortError, PortErrorKind, PortErrorView, PortResult};
use crate::shm_client::{
    ChannelHealthManifest, ChannelPointManifest, ReconnectingSlotSource, ShmChannelHealthReader,
    ShmClientConfig, ShmPlaneAccess,
};
use crate::shm_path::{
    lease_order, order_leases, path_order, reversed, PathOrder, ShmPath,
};
use std::sync::Arc;
use vstd::prelude::*;
use vstd::string::StringExecFns;

verus! {

/// The refusal of two planes at one path.
pub open spec fn shared_path_error() -> PortErrorView {
    PortErrorView {
        kind: PortErrorKind::InvalidData,
        message: "point and channel-health SHM paths must be distinct"@,
    }
}

/// The refusal of a plane whose configured and manifest hashes differ.
pub open spec fn hash_mismatch_error(
    label: Seq<char>,
    configured: u64,
    manifest: u64,
) -> PortErrorView {
    PortErrorView {
        kind: PortErrorKind::InvalidData,
        message: label + " SHM client hash 0x"@ + crate::text::hex16(configured)
            + " does not match manifest hash 0x"@ + crate::text::hex16(manifest),
    }
}

/// Why two configurations and two manifests do not compose, if they do not:
/// one path for both planes first, then the point plane, then the health plane.
/// `order` is how the point path stands to the health path.
pub open spec fn composition_error(
    order: PathOrder,
    point_config: ShmClientConfig,
    health_config: ShmClientConfig,
    point_manifest: ChannelPointManifest,
    health_manifest: ChannelHealthManifest,
) -> Option<PortErrorView> {
    if order == PathOrder::Same {
        Some(shared_path_error())
    } else if point_config@.expected_layout_hash != point_manifest@.layout_hash {
        Some(
            hash_mismatch_error(
                "point"@,
                point_config@.expected_layout_hash,
                point_manifest@.layout_hash,
            ),
        )
    } else if health_config@.expected_layout_hash != health_manifest@.layout_hash {
        Some(
            hash_mismatch_error(
                "channel-health"@,
                health_config@.expected_layout_hash,
                health_manifest@.layout_hash,
            ),
        )
    } else {
        None
    }
}

/// How the paths of two clients stand to each other.
pub open spec fn client_order(left: ShmClientConfig, right: ShmClientConfig) -> PathOrder {
    path_order(left@.path@, right@.path@)
}

/// The parts of one generation.
pub struct ReadTopologyView {
    /// Where the point plane is.
    pub point_path: ShmPath,
    /// Where the health plane is.
    pub health_path: ShmPath,
    /// Reads the point plane.
    pub point_source: ReconnectingSlotSource,
    /// The layout of the point plane.
    pub point_manifest: ChannelPointManifest,
    /// Reads the health plane.
    pub channel_health: ShmChannelHealthReader,
    /// The layout of the health plane.
    pub health_manifest: ChannelHealthManifest,
}

impl ReadTopologyView {
    /// The two planes belong together: they are different planes, and each is
    /// read at its path with the layout of its manifest.
    pub open spec fn coherent(self) -> bool {
        &&& path_order(self.point_path@, self.health_path@) != PathOrder::Same
        &&& self.point_source@@.path@ == self.point_path@
        &&& self.point_source@@.expected_layout_hash == self.point_manifest@.layout_hash
        &&& self.channel_health@.config@.path@ == self.health_path@
        &&& self.channel_health@.config@.expected_layout_hash == self.health_manifest@.layout_hash
        &&& self.channel_health@.manifest == self.health_manifest
    }

    /// The order in which the leases of the two planes are taken.
    pub open spec fn lease_order(self) -> (ShmPath, ShmPath) {
        lease_order(
            path_order(self.point_path@, self.health_path@),
            self.point_path,
            self.health_path,
        )
    }

    /// The generation is made of exactly these configurations and manifests.
    pub open spec fn composed_of(
        self,
        point_config: ShmClientConfig,
        health_config: ShmClientConfig,
        point_manifest: ChannelPointManifest,
        health_manifest: ChannelHealthManifest,
    ) -> bool {
        &&& self.point_path@ == point_config@.path@
        &&& self.health_path@ == health_config@.path@
        &&& self.point_source@ == point_config
        &&& self.point_manifest == point_manifest
        &&& self.channel_health@.config == health_config
        &&& self.channel_health@.manifest == health_manifest
        &&& self.health_manifest == health_manifest
    }
}

/// `refusal` is how the planes may answer a request for the lease at `path`.
pub open spec fn lease_answer<P: ShmPlaneAccess>(
    planes: &P,
    path: &ShmPath,
    refusal: Option<PortError>,
) -> bool {
    exists|reply: PortResult<P::Lease>|
        {
            &&& #[trigger] call_ensures(P::acquire, (planes, path), reply)
            &&& refusal == refusal_of(reply)
        }
}

/// `first_refusal` and `second_refusal` are how the planes may answer when two
/// leases are asked for in turn. The second answer counts only where the first
/// lease was granted.
pub open spec fn pair_answers<P: ShmPlaneAccess>(
    planes: &P,
    order: (ShmPath, ShmPath),
    first_refusal: Option<PortError>,
    second_refusal: Option<PortError>,
) -> bool {
    &&& lease_answer(planes, &order.0, first_refusal)
    &&& first_refusal is None ==> lease_answer(planes, &order.1, second_refusal)
}

/// `refusal` is how the planes may answer the check of the point layout.
pub open spec fn point_answer<P: ShmPlaneAccess>(
    planes: &P,
    generation: ReadTopologyView,
    refusal: Option<PortError>,
) -> bool {
    exists|reply: PortResult<()>|
        {
            &&& #[trigger] call_ensures(
                P::validate_point_layout,
                (planes, &generation.point_source, generation.point_manifest@.slot_count),
                reply,
            )
            &&& refusal == refusal_of(reply)
        }
}

/// `refusal` is how the planes may answer the check of the health layout.
pub open spec fn health_answer<P: ShmPlaneAccess>(
    planes: &P,
    generation: ReadTopologyView,
    refusal: Option<PortError>,
) -> bool {
    exists|reply: PortResult<()>|
        {
            &&& #[trigger] call_ensures(
                P::validate_health_layout,
                (planes, &generation.channel_health),
                reply,
            )
            &&& refusal == refusal_of(reply)
        }
}

/// Why two leases were not both granted, if they were not.
pub open spec fn pair_refusal(
    first_refusal: Option<PortError>,
    second_refusal: Option<PortError>,
) -> Option<PortError> {
    match first_refusal {
        Some(error) => Some(error),
        None => second_refusal,
    }
}

/// What happens when two leases are asked for in turn: the second is asked for
/// only when the first was granted, and where it is refused the first is given
/// back.
pub open spec fn pair_events(
    order: (ShmPath, ShmPath),
    first_refusal: Option<PortError>,
    second_refusal: Option<PortError>,
) -> Seq<PlaneEvent> {
    let first = PlaneEvent::Lease { path: order.0, refusal: first_refusal };
    let second = PlaneEvent::Lease { path: order.1, refusal: second_refusal };
    match (first_refusal, second_refusal) {
        (Some(_), _) => seq![first],
        (None, Some(_)) => seq![first, second, PlaneEvent::Release { path: order.0 }],
        (None, None) => seq![first, second],
    }
}

/// How the planes answer the requests of one validation, each with its refusal
/// if it is refused. An answer counts only where its request is made.
pub struct PlaneAnswers {
    /// To the request for the first lease.
    pub first: Option<PortError>,
    /// To the request for the second lease.
    pub second: Option<PortError>,
    /// To the check of the point layout.
    pub point: Option<PortError>,
    /// To the check of the health layout.
    pub health: Option<PortError>,
}

impl PlaneAnswers {
    /// The planes may answer so when `generation` is validated.
    pub open spec fn possible<P: ShmPlaneAccess>(
        self,
        planes: &P,
        generation: ReadTopologyView,
    ) -> bool {
        &&& pair_answers(planes, generation.lease_order(), self.first, self.second)
        &&& self.leased() ==> point_answer(planes, generation, self.point)
        &&& self.leased() && self.point is None ==> health_answer(planes, generation, self.health)
    }

    /// Both leases are granted.
    pub open spec fn leased(self) -> bool {
        pair_refusal(self.first, self.second) is None
    }

    /// Why the validation fails, if it does: the first refusal decides.
    pub open spec fn refusal(self) -> Option<PortError> {
        match pair_refusal(self.first, self.second) {
            Some(error) => Some(error),
            None => match self.point {
                Some(error) => Some(error),
                None => self.health,
            },
        }
    }

    /// The two requests for the leases of `generation`.
    pub open spec fn lease_events(self, generation: ReadTopologyView) -> Seq<PlaneEvent> {
        pair_events(generation.lease_order(), self.first, self.second)
    }

    /// The checks of the two layouts, made only under both leases: the point
    /// layout, and once it is confirmed the health layout.
    pub open spec fn layout_events(self, generation: ReadTopologyView) -> Seq<PlaneEvent> {
        let point = PlaneEvent::PointLayout {
            source: generation.point_source,
            slot_count: generation.point_manifest@.slot_count,
            refusal: self.point,
        };
        let health = PlaneEvent::HealthLayout {
            reader: generation.channel_health,
            refusal: self.health,
        };
        if !self.leased() {
            Seq::empty()
        } else if self.point is Some {
            seq![point]
        } else {
            seq![point, health]
        }
    }

    /// Everything up to the end of the validation, in order.
    pub open spec fn validation_events(self, generation: ReadTopologyView) -> Seq<PlaneEvent> {
        self.lease_events(generation) + self.layout_events(generation)
    }

    /// The leases that are still held are given back, last taken first.
    pub open spec fn release_events(self, generation: ReadTopologyView) -> Seq<PlaneEvent> {
        if self.leased() {
            seq![
                PlaneEvent::Release { path: generation.lease_order().1 },
                PlaneEvent::Release { path: generation.lease_order().0 },
            ]
        } else {
            Seq::empty()
        }
    }

    /// All that happens when `generation` is validated and, once that has
    /// succeeded, `published` is done: both leases, both layouts, what is
    /// published, and then the leases are given back.
    pub open spec fn events(
        self,
        generation: ReadTopologyView,
        published: Seq<PlaneEvent>,
    ) -> Seq<PlaneEvent> {
        self.validation_events(generation) + (if self.refusal() is None {
            published
        } else {
            Seq::empty()
        }) + self.release_events(generation)
    }
}

/// Validating `generation` may end with `refusal`.
pub open spec fn validation_outcome<P: ShmPlaneAccess>(
    planes: &P,
    generation: ReadTopologyView,
    refusal: Option<PortError>,
) -> bool {
    exists|answers: PlaneAnswers|
        {
            &&& #[trigger] answers.possible(planes, generation)
            &&& answers.refusal() == refusal
        }
}

/// One immutable point/health topology generation for read-only consumers.
///
/// The generation deliberately contains both planes. A consumer may retain
/// the returned `Arc` for a whole query or scheduler pass and cannot observe a
/// point manifest from one publication with a health manifest from another.
pub struct ShmReadTopologyGeneration {
    point_path: ShmPath,
    health_path: ShmPath,
    point_source: Arc<ReconnectingSlotSource>,
    point_manifest: Arc<ChannelPointManifest>,
    channel_health: Arc<ShmChannelHealthReader>,
    health_manifest: Arc<ChannelHealthManifest>,
}

impl View for ShmReadTopologyGeneration {
    type V = ReadTopologyView;

    closed spec fn view(&self) -> ReadTopologyView {
        ReadTopologyView {
            point_path: self.point_path,
            health_path: self.health_path,
            point_source: *self.point_source,
            point_manifest: *self.point_manifest,
            channel_health: *self.channel_health,
            health_manifest: *self.health_manifest,
        }
    }
}

/// The debug form of a generation: the layouts of its planes and nothing else.
pub open spec fn debug_text(generation: ReadTopologyView) -> Seq<char> {
    "ShmReadTopologyGeneration { point_layout_hash: "@ + crate::text::decimal(
        generation.point_manifest@.layout_hash as nat,
    ) + ", point_slot_count: "@ + crate::text::decimal(
        generation.point_manifest@.slot_count as nat,
    ) + ", health_layout_hash: "@ + crate::text::decimal(
        generation.health_manifest@.layout_hash as nat,
    ) + ", health_slot_count: "@ + crate::text::decimal(
        generation.health_manifest@.slot_count as nat,
    ) + " }"@
}

impl ShmReadTopologyGeneration {
    /// Every generation is coherent.
    #[verifier::type_invariant]
    pub open spec fn well_formed(self) -> bool {
        self@.coherent()
    }

    /// Builds a lazy generation so a service can start before its planes are
    /// written.
    ///
    /// This validates the composition-provided hashes but does not open either
    /// plane. Reads remain retryably unavailable until the planes are published.
    pub fn new_lazy(
        point_config: ShmClientConfig,
        health_config: ShmClientConfig,
        point_manifest: Arc<ChannelPointManifest>,
        health_manifest: Arc<ChannelHealthManifest>,
    ) -> (result: PortResult<Self>)
        ensures
            point_config@.path@ == health_config@.path@ ==> (result matches Err(error) && error@
                == shared_path_error()),
            match composition_error(
                client_order(point_config, health_config),
                point_config,
                health_config,
                *point_manifest,
                *health_manifest,
            ) {
                Some(refusal) => result matches Err(error) && error@ == refusal,
                None => result matches Ok(generation) && generation@.coherent()
                    && generation@.composed_of(
                    point_config,
                    health_config,
                    *point_manifest,
                    *health_manifest,
                ),
            },
    {
        let order = point_config.path().compare(health_config.path());
        match validate_composition(
            order,
            &point_config,
            &health_config,
            &point_manifest,
            &health_manifest,
        ) {
            Ok(()) => {},
            Err(error) => return Err(error),
        }
        Ok(
            ShmReadTopologyGeneration {
                point_path: point_config.path().clone(),
                health_path: health_config.path().clone(),
                point_source: Arc::new(ReconnectingSlotSource::new(point_config)),
                point_manifest,
                channel_health: Arc::new(
                    ShmChannelHealthReader::new(health_config, Arc::clone(&health_manifest)),
                ),
                health_manifest,
            },
        )
    }

    /// Validates both physical planes before returning a candidate.
    pub fn open<P: ShmPlaneAccess>(
        session: &mut PlaneSession<P>,
        point_config: ShmClientConfig,
        health_config: ShmClientConfig,
        point_manifest: Arc<ChannelPointManifest>,
        health_manifest: Arc<ChannelHealthManifest>,
    ) -> (result: PortResult<Self>)
        ensures
            final(session)@.planes == old(session)@.planes,
            point_config@.path@ == health_config@.path@ ==> (result matches Err(error) && error@
                == shared_path_error()),
            match composition_error(
                client_order(point_config, health_config),
                point_config,
                health_config,
                *point_manifest,
                *health_manifest,
            ) {
                Some(refusal) => {
                    &&& result matches Err(error) && error@ == refusal
                    &&& final(session)@.events == old(session)@.events
                },
                None => exists|candidate: ReadTopologyView, answers: PlaneAnswers|
                    {
                        &&& #[trigger] answers.possible(&old(session)@.planes, candidate)
                        &&& candidate.coherent()
                        &&& candidate.composed_of(
                            point_config,
                            health_config,
                            *point_manifest,
                            *health_manifest,
                        )
                        &&& final(session)@.events == old(session)@.events + answers.events(
                            candidate,
                            Seq::empty(),
                        )
                        &&& match answers.refusal() {
                            None => result matches Ok(generation) && generation@ == candidate,
                            Some(error) => result == Err::<Self, PortError>(error),
                        }
                    },
            },
    {
        let generation = match Self::new_lazy(
            point_config,
            health_config,
            point_manifest,
            health_manifest,
        ) {
            Ok(generation) => generation,
            Err(error) => return Err(error),
        };
        match generation.validate_layouts(session) {
            Ok(()) => Ok(generation),
            Err(error) => Err(error),
        }
    }

    /// Revalidates both layouts without requiring a fresh heartbeat.
    pub fn validate_layouts<P: ShmPlaneAccess>(&self, session: &mut PlaneSession<P>) -> (result:
        PortResult<()>)
        ensures
            final(session)@.planes == old(session)@.planes,
            exists|answers: PlaneAnswers|
                {
                    &&& #[trigger] answers.possible(&old(session)@.planes, self@)
                    &&& final(session)@.events == old(session)@.events + answers.events(
                        self@,
                        Seq::empty(),
                    )
                    &&& refusal_of(result) == answers.refusal()
                },
    {
        let (validated, Ghost(answers)) = self.validated_leases(session);
        match validated {
            Ok(held) => {
                release_pair(session, held);
                assert(session@.events =~= old(session)@.events + answers.events(
                    self@,
                    Seq::empty(),
                ));
                Ok(())
            },
            Err(error) => Err(error),
        }
    }

    /// Runs one publication while both canonical planes are validation-locked.
    ///
    /// `publish` runs only once the validation has succeeded, so only then has
    /// its precondition to hold, and it is shown the leases that cover it. A
    /// writer needs exclusive leases to invalidate and replace either
    /// generation, so what `publish` does cannot race the final validation and
    /// publish a mapping that was already superseded.
    pub fn with_validated_authority<
        T,
        P: ShmPlaneAccess,
        F: FnOnce(&PlaneLeases<P::Lease>) -> T,
    >(&self, session: &mut PlaneSession<P>, publish: F) -> (result: PortResult<T>)
        requires
            validation_outcome(&old(session)@.planes, self@, None) ==> forall|
                held: &PlaneLeases<P::Lease>,
            |
                held.0@.path == self@.lease_order().0 && held.1@.path == self@.lease_order().1
                    ==> #[trigger] call_requires(publish, (held,)),
        ensures
            final(session)@.planes == old(session)@.planes,
            exists|answers: PlaneAnswers|
                {
                    &&& #[trigger] answers.possible(&old(session)@.planes, self@)
                    &&& final(session)@.events == old(session)@.events + answers.events(
                        self@,
                        seq![PlaneEvent::Publication],
                    )
                    &&& match answers.refusal() {
                        None => result matches Ok(published) && self.published_under_leases(
                            &old(session)@.planes,
                            publish,
                            published,
                        ),
                        Some(error) => result == Err::<T, PortError>(error),
                    }
                },
    {
        let (validated, Ghost(answers)) = self.validated_leases(session);
        match validated {
            Ok(held) => {
                assert(validation_outcome(&old(session)@.planes, self@, None));
                let published = session.publish(&held, publish);
                assert(self.published_under_leases(&old(session)@.planes, publish, published));
                release_pair(session, held);
                assert(session@.events =~= old(session)@.events + answers.events(
                    self@,
                    seq![PlaneEvent::Publication],
                ));
                Ok(published)
            },
            Err(error) => {
                assert(answers.events(self@, seq![PlaneEvent::Publication]) =~= answers.events(
                    self@,
                    Seq::empty(),
                ));
                Err(error)
            },
        }
    }

    /// `publish` may return `published` when it is shown the two leases of this
    /// generation.
    pub open spec fn published_under_leases<
        T,
        P: ShmPlaneAccess,
        F: FnOnce(&PlaneLeases<P::Lease>) -> T,
    >(&self, planes: &P, publish: F, published: T) -> bool {
        exists|held: PlaneLeases<P::Lease>|
            {
                &&& #[trigger] leases_granted(planes, self@.lease_order(), held)
                &&& call_ensures(publish, (&held,), published)
            }
    }

    /// Takes both leases and validates both layouts under them. The planes stay
    /// locked as long as the leases are held; where the validation fails they
    /// are given back.
    pub(crate) fn validated_leases<P: ShmPlaneAccess>(
        &self,
        session: &mut PlaneSession<P>,
    ) -> (result: (PortResult<PlaneLeases<P::Lease>>, Ghost<PlaneAnswers>))
        ensures
            final(session)@.planes == old(session)@.planes,
            result.1@.possible(&old(session)@.planes, self@),
            refusal_of(result.0) == result.1@.refusal(),
            match result.0 {
                Ok(held) => {
                    &&& leases_granted(&old(session)@.planes, self@.lease_order(), held)
                    &&& final(session)@.events == old(session)@.events
                        + result.1@.validation_events(self@)
                },
                Err(_) => final(session)@.events == old(session)@.events + result.1@.events(
                    self@,
                    Seq::empty(),
                ),
            },
    {
        let ghost before = session@.events;
        let ghost planes = session@.planes;
        let leases = acquire_authority_pair(session, &self.point_path, &self.health_path);
        let ghost order = self@.lease_order();
        let ghost pair: (Option<PortError>, Option<PortError>) = choose|
            first_refusal: Option<PortError>,
            second_refusal: Option<PortError>,
        |
            {
                &&& #[trigger] pair_answers(&planes, order, first_refusal, second_refusal)
                &&& session@.events == before + pair_events(order, first_refusal, second_refusal)
                &&& refusal_of(leases) == pair_refusal(first_refusal, second_refusal)
            };
        let held = match leases {
            Ok(held) => held,
            Err(error) => {
                let ghost answers = PlaneAnswers {
                    first: pair.0,
                    second: pair.1,
                    point: None,
                    health: None,
                };
                assert(session@.events =~= before + answers.events(self@, Seq::empty()));
                return (Err(error), Ghost(answers));
            },
        };
        let point_reply = session.validate_point_layout(
            &self.point_source,
            self.point_manifest.slot_count(),
        );
        if let Err(error) = point_reply {
            release_pair(session, held);
            let ghost answers = PlaneAnswers {
                first: pair.0,
                second: pair.1,
                point: Some(error),
                health: None,
            };
            assert(session@.events =~= before + answers.events(self@, Seq::empty()));
            return (Err(error), Ghost(answers));
        }
        let health_reply = session.validate_health_layout(&self.channel_health);
        let ghost answers = PlaneAnswers {
            first: pair.0,
            second: pair.1,
            point: None,
            health: refusal_of(health_reply),
        };
        assert(session@.events =~= before + answers.validation_events(self@));
        match health_reply {
            Ok(()) => (Ok(held), Ghost(answers)),
            Err(error) => {
                release_pair(session, held);
                assert(session@.events =~= before + answers.events(self@, Seq::empty()));
                (Err(error), Ghost(answers))
            },
        }
    }

    /// Returns the point-plane source paired with this generation.
    #[must_use]
    pub fn point_source(&self) -> (source: &Arc<ReconnectingSlotSource>)
        ensures
            **source == self@.point_source,
            self@.coherent(),
    {
        proof {
            use_type_invariant(self);
        }
        &self.point_source
    }

    /// Returns the point manifest paired with this generation.
    #[must_use]
    pub fn point_manifest(&self) -> (manifest: &Arc<ChannelPointManifest>)
        ensures
            **manifest == self@.point_manifest,
            self@.coherent(),
    {
        proof {
            use_type_invariant(self);
        }
        &self.point_manifest
    }

    /// Returns the channel-health source paired with this generation.
    #[must_use]
    pub fn channel_health(&self) -> (reader: &Arc<ShmChannelHealthReader>)
        ensures
            **reader == self@.channel_health,
            self@.coherent(),
    {
        proof {
            use_type_invariant(self);
        }
        &self.channel_health
    }

    /// Returns the health manifest paired with this generation.
    #[must_use]
    pub fn health_manifest(&self) -> (manifest: &Arc<ChannelHealthManifest>)
        ensures
            **manifest == self@.health_manifest,
            self@.coherent(),
    {
        proof {
            use_type_invariant(self);
        }
        &self.health_manifest
    }

    /// Returns the debug form of this generation.
    pub fn to_debug_string(&self) -> (text: String)
        ensures
            text@ == debug_text(self@),
    {
        let mut text = "ShmReadTopologyGeneration { point_layout_hash: ".to_owned();
        crate::text::append_decimal(&mut text, self.point_manifest.layout_hash());
        text.append(", point_slot_count: ");
        crate::text::append_decimal(&mut text, self.point_manifest.slot_count() as u64);
        text.append(", health_layout_hash: ");
        crate::text::append_decimal(&mut text, self.health_manifest.layout_hash());
        text.append(", health_slot_count: ");
        crate::text::append_decimal(&mut text, self.health_manifest.slot_count() as u64);
        text.append(" }");
        text
    }
}

/// Checks that two configurations and two manifests compose, where the point
/// path stands to the health path as `order` says.
pub fn validate_composition(
    order: PathOrder,
    point_config: &ShmClientConfig,
    health_config: &ShmClientConfig,
    point_manifest: &ChannelPointManifest,
    health_manifest: &ChannelHealthManifest,
) -> (result: PortResult<()>)
    ensures
        match composition_error(
            order,
            *point_config,
            *health_config,
            *point_manifest,
            *health_manifest,
        ) {
            Some(refusal) => result matches Err(error) && error@ == refusal,
            None => result is Ok,
        },
{
    if let PathOrder::Same = order {
        return Err(
            PortError::new(
                PortErrorKind::InvalidData,
                "point and channel-health SHM paths must be distinct".to_owned(),
            ),
        );
    }
    match validate_config_hash(
        "point",
        point_config.expected_layout_hash(),
        point_manifest.layout_hash(),
    ) {
        Ok(()) => {},
        Err(error) => return Err(error),
    }
    validate_config_hash(
        "channel-health",
        health_config.expected_layout_hash(),
        health_manifest.layout_hash(),
    )
}

/// `held` are the leases that the planes granted at the two paths of `order`.
pub open spec fn leases_granted<P: ShmPlaneAccess>(
    planes: &P,
    order: (ShmPath, ShmPath),
    held: PlaneLeases<P::Lease>,
) -> bool {
    &&& held.0@.path == order.0
    &&& held.1@.path == order.1
    &&& call_ensures(P::acquire, (planes, &order.0), Ok(held.0@.lease))
    &&& call_ensures(P::acquire, (planes, &order.1), Ok(held.1@.lease))
}

/// Takes the shared leases of both planes, the lower path first.
pub fn acquire_authority_pair<P: ShmPlaneAccess>(
    session: &mut PlaneSession<P>,
    point_path: &ShmPath,
    health_path: &ShmPath,
) -> (result: PortResult<PlaneLeases<P::Lease>>)
    ensures
        final(session)@.planes == old(session)@.planes,
        path_order(health_path@, point_path@) == reversed(path_order(point_path@, health_path@)),
        ({
            let order = lease_order(
                path_order(point_path@, health_path@),
                *point_path,
                *health_path,
            );
            &&& path_order(order.0@, order.1@) != PathOrder::After
            &&& result matches Ok(held) ==> leases_granted(&old(session)@.planes, order, held)
            &&& exists|first_refusal: Option<PortError>, second_refusal: Option<PortError>|
                {
                    &&& #[trigger] pair_answers(
                        &old(session)@.planes,
                        order,
                        first_refusal,
                        second_refusal,
                    )
                    &&& final(session)@.events == old(session)@.events + pair_events(
                        order,
                        first_refusal,
                        second_refusal,
                    )
                    &&& refusal_of(result) == pair_refusal(first_refusal, second_refusal)
                }
        }),
{
    let ghost before = session@.events;
    let ghost planes = session@.planes;
    let (first_path, second_path) = order_leases(point_path, health_path);
    let ghost order = (*first_path, *second_path);
    let first = match session.acquire(first_path) {
        Ok(lease) => lease,
        Err(error) => {
            assert(pair_answers(&planes, order, Some(error), None));
            assert(session@.events =~= before + pair_events(order, Some(error), None));
            return Err(error);
        },
    };
    assert(lease_answer(&planes, first_path, None));
    let second = match session.acquire(second_path) {
        Ok(lease) => lease,
        Err(error) => {
            assert(pair_answers(&planes, order, None, Some(error)));
            session.release(first);
            assert(session@.events =~= before + pair_events(order, None, Some(error)));
            return Err(error);
        },
    };
    assert(pair_answers(&planes, order, None, None));
    assert(session@.events =~= before + pair_events(order, None, None));
    Ok((first, second))
}

/// Gives both leases back, last taken first.
pub(crate) fn release_pair<P: ShmPlaneAccess>(
    session: &mut PlaneSession<P>,
    held: PlaneLeases<P::Lease>,
)
    ensures
        final(session)@.planes == old(session)@.planes,
        final(session)@.events == old(session)@.events + seq![
            PlaneEvent::Release { path: held.1@.path },
            PlaneEvent::Release { path: held.0@.path },
        ],
{
    let ghost before = session@.events;
    let (first, second) = held;
    session.release(second);
    session.release(first);
    assert(session@.events =~= before + seq![
        PlaneEvent::Release { path: held.1@.path },
        PlaneEvent::Release { path: held.0@.path },
    ]);
}

/// Checks that a client expects the layout that the manifest describes.
pub fn validate_config_hash(label: &str, configured: u64, manifest: u64) -> (result: PortResult<()>)
    ensures
        configured == manifest ==> result == Ok::<(), PortError>(()),
        configured != manifest ==> (result matches Err(error) && error@ == hash_mismatch_error(
            label@,
            configured,
            manifest,
        )),
{
    if configured == manifest {
        return Ok(());
    }
    let mut message = label.to_owned();
    message.append(" SHM client hash 0x");
    crate::text::append_hex(&mut message, configured, 16);
    message.append(" does not match manifest hash 0x");
    crate::text::append_hex(&mut message, manifest, 16);
    Err(PortError::new(PortErrorKind::InvalidData, message))
}

/// What refuses a composition is permanent: no repetition can make it pass.
pub proof fn law_composition_refusal_is_permanent(
    order: PathOrder,
    point_config: ShmClientConfig,
    health_config: ShmClientConfig,
    point_manifest: ChannelPointManifest,
    health_manifest: ChannelHealthManifest,
)
    ensures
        composition_error(
            order,
            point_config,
            health_config,
            point_manifest,
            health_manifest,
        ) matches Some(refusal) ==> !crate::port::retryable(refusal.kind),
{
}

/// A generation is coherent exactly when the configurations and manifests that
/// it is made of compose.
pub proof fn law_coherent_means_composable(
    generation: ReadTopologyView,
    point_config: ShmClientConfig,
    health_config: ShmClientConfig,
    point_manifest: ChannelPointManifest,
    health_manifest: ChannelHealthManifest,
)
    requires
        generation.composed_of(point_config, health_config, point_manifest, health_manifest),
    ensures
        generation.coherent() <==> composition_error(
            client_order(point_config, health_config),
            point_config,
            health_config,
            point_manifest,
            health_manifest,
        ) is None,
{
}

/// While every lease is granted and both layouts are confirmed, validation
/// succeeds.
pub proof fn law_agreeing_planes_are_accepted<P: ShmPlaneAccess>(
    planes: &P,
    generation: ReadTopologyView,
    refusal: Option<PortError>,
)
    requires
        validation_outcome(planes, generation, refusal),
        forall|reply: PortResult<P::Lease>| #[trigger]
            call_ensures(P::acquire, (planes, &generation.point_path), reply) ==> reply is Ok,
        forall|reply: PortResult<P::Lease>| #[trigger]
            call_ensures(P::acquire, (planes, &generation.health_path), reply) ==> reply is Ok,
        forall|reply: PortResult<()>| #[trigger]
            call_ensures(
                P::validate_point_layout,
                (planes, &generation.point_source, generation.point_manifest@.slot_count),
                reply,
            ) ==> reply is Ok,
        forall|reply: PortResult<()>| #[trigger]
            call_ensures(
                P::validate_health_layout,
                (planes, &generation.channel_health),
                reply,
            ) ==> reply is Ok,
    ensures
        refusal is None,
{
}

/// A publication that reached one plane only is never accepted: where either
/// layout cannot be confirmed, validation fails.
pub proof fn law_partial_publication_is_refused<P: ShmPlaneAccess>(
    planes: &P,
    generation: ReadTopologyView,
    refusal: Option<PortError>,
)
    requires
        validation_outcome(planes, generation, refusal),
        (forall|reply: PortResult<()>| #[trigger]
            call_ensures(
                P::validate_point_layout,
                (planes, &generation.point_source, generation.point_manifest@.slot_count),
                reply,
            ) ==> reply is Err) || (forall|reply: PortResult<()>| #[trigger]
            call_ensures(
                P::validate_health_layout,
                (planes, &generation.channel_health),
                reply,
            ) ==> reply is Err),
    ensures
        refusal is Some,
{
}

/// A refused lease fails the validation: unless both planes are locked, no
/// layout counts.
pub proof fn law_unlocked_planes_are_refused<P: ShmPlaneAccess>(
    planes: &P,
    generation: ReadTopologyView,
    refusal: Option<PortError>,
)
    requires
        validation_outcome(planes, generation, refusal),
        (forall|reply: PortResult<P::Lease>| #[trigger]
            call_ensures(P::acquire, (planes, &generation.point_path), reply) ==> reply is Err) || (
        forall|reply: PortResult<P::Lease>| #[trigger]
            call_ensures(P::acquire, (planes, &generation.health_path), reply) ==> reply is Err),
    ensures
        refusal is Some,
{
}

/// Physical lag is retryable: where the physical planes refuse in retryable
/// ways only, so does the validation.
pub proof fn law_physical_lag_is_retryable<P: ShmPlaneAccess>(
    planes: &P,
    generation: ReadTopologyView,
    refusal: Option<PortError>,
)
    requires
        validation_outcome(planes, generation, refusal),
        forall|reply: PortResult<P::Lease>| #[trigger]
            call_ensures(P::acquire, (planes, &generation.point_path), reply) ==> (
            reply matches Err(error) ==> crate::port::retryable(error@.kind)),
        forall|reply: PortResult<P::Lease>| #[trigger]
            call_ensures(P::acquire, (planes, &generation.health_path), reply) ==> (
            reply matches Err(error) ==> crate::port::retryable(error@.kind)),
        forall|reply: PortResult<()>| #[trigger]
            call_ensures(
                P::validate_point_layout,
                (planes, &generation.point_source, generation.point_manifest@.slot_count),
                reply,
            ) ==> (reply matches Err(error) ==> crate::port::retryable(error@.kind)),
        forall|reply: PortResult<()>| #[trigger]
            call_ensures(
                P::validate_health_layout,
                (planes, &generation.channel_health),
                reply,
            ) ==> (reply matches Err(error) ==> crate::port::retryable(error@.kind)),
    ensures
        refusal matches Some(error) ==> crate::port::retryable(error@.kind),
{
}

/// The same leases are asked for in the same order, and the same happens,
/// whichever of two different planes is named first.
pub proof fn law_lease_sequence_ignores_roles(
    order: PathOrder,
    left: ShmPath,
    right: ShmPath,
    first_refusal: Option<PortError>,
    second_refusal: Option<PortError>,
)
    requires
        order != PathOrder::Same,
    ensures
        pair_events(lease_order(order, left, right), first_refusal, second_refusal) == pair_events(
            lease_order(reversed(order), right, left),
            first_refusal,
            second_refusal,
        ),
{
    crate::shm_path::law_lease_order_ignores_roles(order, left, right);
}

/// After two leases were asked for in turn, either both are held or none more
/// than before. Where the first is refused, nothing but the one request
/// happened.
pub proof fn law_leases_are_held_in_pairs(
    before: Seq<PlaneEvent>,
    order: (ShmPath, ShmPath),
    first_refusal: Option<PortError>,
    second_refusal: Option<PortError>,
)
    ensures
        held_after(before + pair_events(order, first_refusal, second_refusal)) == if pair_refusal(
            first_refusal,
            second_refusal,
        ) is None {
            held_after(before).push(order.0).push(order.1)
        } else {
            held_after(before)
        },
        first_refusal is Some ==> pair_events(order, first_refusal, second_refusal) == seq![
            PlaneEvent::Lease { path: order.0, refusal: first_refusal },
        ],
{
    reveal_with_fuel(held_after, 4);
    let first = PlaneEvent::Lease { path: order.0, refusal: first_refusal };
    let second = PlaneEvent::Lease { path: order.1, refusal: second_refusal };
    let events = pair_events(order, first_refusal, second_refusal);
    assert((before + events).drop_last() =~= before + events.drop_last());
    if first_refusal is Some {
        assert(before + events.drop_last() =~= before);
    } else {
        assert(before.push(first).drop_last() =~= before);
        if second_refusal is Some {
            assert(before + events.drop_last() =~= before.push(first).push(second));
            assert(before.push(first).push(second).drop_last() =~= before.push(first));
            assert(held_after(before).push(order.0).drop_last() =~= held_after(before));
        } else {
            assert(before + events.drop_last() =~= before.push(first));
        }
    }
}

/// Checks of layouts, publications and replacements take and give back no
/// lease.
proof fn lemma_held_unchanged(before: Seq<PlaneEvent>, event: PlaneEvent)
    requires
        !(event is Lease),
        !(event is Release),
    ensures
        held_after(before.push(event)) == held_after(before),
{
    assert(before.push(event).drop_last() =~= before);
}

/// Both layouts are checked, and whatever is published is done, while both
/// leases are held on top of those held before.
pub proof fn law_work_is_done_under_both_leases(
    before: Seq<PlaneEvent>,
    generation: ReadTopologyView,
    answers: PlaneAnswers,
)
    requires
        answers.leased(),
    ensures
        ({
            let covered = held_after(before).push(generation.lease_order().0).push(
                generation.lease_order().1,
            );
            &&& held_after(before + answers.lease_events(generation)) == covered
            &&& held_after(before + answers.validation_events(generation)) == covered
            &&& forall|done: PlaneEvent|
                done is Publication || done is Replacement ==> #[trigger] held_after(
                    before + answers.validation_events(generation) + seq![done],
                ) == covered
        }),
{
    law_leases_are_held_in_pairs(
        before,
        generation.lease_order(),
        answers.first,
        answers.second,
    );
    let leased = before + answers.lease_events(generation);
    let layouts = answers.layout_events(generation);
    let validated = before + answers.validation_events(generation);
    lemma_held_unchanged(leased, layouts[0]);
    if answers.point is Some {
        assert(validated =~= leased.push(layouts[0]));
    } else {
        lemma_held_unchanged(leased.push(layouts[0]), layouts[1]);
        assert(validated =~= leased.push(layouts[0]).push(layouts[1]));
    }
    assert forall|done: PlaneEvent| done is Publication || done is Replacement implies #[trigger]
    held_after(validated + seq![done]) == held_after(validated) by {
        lemma_held_unchanged(validated, done);
        assert(validated + seq![done] =~= validated.push(done));
    }
}

/// Whatever comes of a validation, no lease that it took stays held.
pub proof fn law_no_lease_stays_held(
    before: Seq<PlaneEvent>,
    generation: ReadTopologyView,
    answers: PlaneAnswers,
    done: PlaneEvent,
)
    requires
        done is Publication || done is Replacement,
    ensures
        held_after(before + answers.events(generation, seq![done])) == held_after(before),
        held_after(before + answers.events(generation, Seq::empty())) == held_after(before),
{
    lemma_released(before, generation, answers, Seq::empty());
    lemma_released(before, generation, answers, seq![done]);
}

proof fn lemma_released(
    before: Seq<PlaneEvent>,
    generation: ReadTopologyView,
    answers: PlaneAnswers,
    published: Seq<PlaneEvent>,
)
    requires
        published.len() == 0 || (published.len() == 1 && (published[0] is Publication
            || published[0] is Replacement)),
    ensures
        held_after(before + answers.events(generation, published)) == held_after(before),
{
    let events = before + answers.events(generation, published);
    if answers.leased() {
        law_work_is_done_under_both_leases(before, generation, answers);
        let order = generation.lease_order();
        let covered = held_after(before).push(order.0).push(order.1);
        let validated = before + answers.validation_events(generation);
        let done = if answers.refusal() is None {
            validated + published
        } else {
            validated
        };
        if published.len() == 1 {
            assert(published =~= seq![published[0]]);
        } else {
            assert(validated + published =~= validated);
        }
        assert(held_after(done) == covered);
        let once = done.push(PlaneEvent::Release { path: order.1 });
        assert(events =~= once.push(PlaneEvent::Release { path: order.0 }));
        assert(events.drop_last() =~= once);
        assert(once.drop_last() =~= done);
        assert(held_after(once) == covered.drop_last());
        assert(held_after(events) == held_after(once).drop_last());
        assert(covered.drop_last().drop_last() =~= held_after(before));
    } else {
        law_leases_are_held_in_pairs(
            before,
            generation.lease_order(),
            answers.first,
            answers.second,
        );
        assert(events =~= before + answers.lease_events(generation));
    }
}

/// Two states of the planes answer the requests of a validation alike: the two
/// leases and the two layout checks.
pub open spec fn answer_alike<P: ShmPlaneAccess, Q: ShmPlaneAccess>(
    one: &P,
    other: &Q,
    generation: ReadTopologyView,
) -> bool {
    &&& forall|refusal: Option<PortError>| #[trigger]
        lease_answer(one, &generation.point_path, refusal) <==> #[trigger] lease_answer(
            other,
            &generation.point_path,
            refusal,
        )
    &&& forall|refusal: Option<PortError>| #[trigger]
        lease_answer(one, &generation.health_path, refusal) <==> #[trigger] lease_answer(
            other,
            &generation.health_path,
            refusal,
        )
    &&& forall|refusal: Option<PortError>| #[trigger]
        point_answer(one, generation, refusal) <==> #[trigger] point_answer(
            other,
            generation,
            refusal,
        )
    &&& forall|refusal: Option<PortError>| #[trigger]
        health_answer(one, generation, refusal) <==> #[trigger] health_answer(
            other,
            generation,
            refusal,
        )
}

/// A validation depends on the planes through the answers to its leases and
/// layout checks alone. Whatever else differs between two states of the planes,
/// such as how fresh a heartbeat is, the same answers are possible and the
/// validation ends alike.
pub proof fn law_validation_sees_layouts_alone<P: ShmPlaneAccess, Q: ShmPlaneAccess>(
    one: &P,
    other: &Q,
    generation: ReadTopologyView,
    answers: PlaneAnswers,
    refusal: Option<PortError>,
)
    requires
        answer_alike(one, other, generation),
    ensures
        answers.possible(one, generation) <==> answers.possible(other, generation),
        validation_outcome(one, generation, refusal) <==> validation_outcome(
            other,
            generation,
            refusal,
        ),
{
    assert forall|any: PlaneAnswers| #[trigger]
        any.possible(one, generation) <==> #[trigger] any.possible(other, generation) by {
        let order = generation.lease_order();
        assert(lease_answer(one, &order.0, any.first) <==> lease_answer(
            other,
            &order.0,
            any.first,
        ));
        assert(lease_answer(one, &order.1, any.second) <==> lease_answer(
            other,
            &order.1,
            any.second,
        ));
        assert(point_answer(one, generation, any.point) <==> point_answer(
            other,
            generation,
            any.point,
        ));
        assert(health_answer(one, generation, any.health) <==> health_answer(
            other,
            generation,
            any.health,
        ));
    }
    if validation_outcome(one, generation, refusal) {
        let witness = choose|any: PlaneAnswers| #[trigger]
            any.possible(one, generation) && any.refusal() == refusal;
        assert(witness.possible(other, generation));
    }
    if validation_outcome(other, generation, refusal) {
        let witness = choose|any: PlaneAnswers| #[trigger]
            any.possible(other, generation) && any.refusal() == refusal;
        assert(witness.possible(one, generation));
    }
}

/// What publishing an accepted candidate does to a slot that held the
/// generations of `before` so far.
pub open spec fn replacement_events(
    slot: SlotIdentity,
    before: Seq<ShmReadTopologyGeneration>,
    candidate: Arc<ShmReadTopologyGeneration>,
) -> Seq<PlaneEvent> {
    seq![PlaneEvent::Replacement { slot, before, generation: *candidate }]
}

/// At every moment of a publication the slot holds the generation from before
/// it or the candidate, and nothing else: the candidate from the replacement
/// on, which happens right after the last layout was confirmed.
pub proof fn law_every_moment_holds_old_or_candidate(
    slot: SlotIdentity,
    before: Seq<ShmReadTopologyGeneration>,
    initial: ShmReadTopologyGeneration,
    candidate: Arc<ShmReadTopologyGeneration>,
    answers: PlaneAnswers,
    moment: nat,
)
    requires
        moment <= answers.events(candidate@, replacement_events(slot, before, candidate)).len(),
    ensures
        crate::authority::generation_after(
            slot,
            initial,
            answers.events(candidate@, replacement_events(slot, before, candidate)).take(
                moment as int,
            ),
        ) == if answers.refusal() is None && moment > answers.validation_events(candidate@).len() {
            *candidate
        } else {
            initial
        },
    decreases moment,
{
    let events = answers.events(candidate@, replacement_events(slot, before, candidate));
    if moment > 0 {
        law_every_moment_holds_old_or_candidate(
            slot,
            before,
            initial,
            candidate,
            answers,
            (moment - 1) as nat,
        );
        assert(events.take(moment as int).drop_last() =~= events.take(moment - 1));
        assert(events.take(moment as int).last() == events[moment - 1]);
    }
}

} // verus!
