//! Composition, validation and publication of read topologies over an
//! in-process stand-in for the physical planes.

use std::cell::RefCell;
use std::collections::HashMap;
use std::path::PathBuf;
use std::sync::Arc;

use aether_live_state::authority::PlaneSession;
use aether_live_state::channel_health::{ChannelHealthObservation, ChannelHealthSource};
use aether_live_state::domain::ChannelId;
use aether_live_state::port::{PortError, PortErrorKind, PortResult};
use aether_live_state::read_topology::{
    acquire_authority_pair, validate_composition, validate_config_hash, ShmReadTopologyGeneration,
};
use aether_live_state::shm_client::{
    ChannelHealthManifest, ChannelPointManifest, ReconnectingSlotSource, ShmChannelHealthReader,
    ShmClientConfig, ShmPlaneAccess,
};
use aether_live_state::shm_path::{arrange_leases, order_leases, PathOrder, ShmPath};
use aether_live_state::topology_handle::{SharedReadTopologyHandle, ShmReadTopologyHandle};

const DIRECTORY: &str = "/run/aether-read-topology";

fn path(name: &str) -> ShmPath {
    ShmPath::new(PathBuf::from(DIRECTORY).join(name))
}

fn at(path: &str) -> ShmPath {
    ShmPath::new(PathBuf::from(path))
}

fn mix(hash: u64, word: u32) -> u64 {
    (hash ^ u64::from(word)).wrapping_mul(0x0000_0100_0000_01b3)
}

fn point_manifest(entries: &[(u32, [u32; 4])]) -> Arc<ChannelPointManifest> {
    let mut hash: u64 = 0xcbf2_9ce4_8422_2325;
    let mut slots: usize = 0;
    for (channel, counts) in entries {
        hash = mix(hash, *channel);
        for count in counts {
            hash = mix(hash, *count);
            slots += *count as usize;
        }
    }
    Arc::new(ChannelPointManifest::new(hash, slots))
}

fn health_manifest(channel_ids: &[u32]) -> Arc<ChannelHealthManifest> {
    let mut hash: u64 = 0x9e37_79b9_7f4a_7c15;
    for channel in channel_ids {
        hash = mix(hash, *channel);
    }
    Arc::new(ChannelHealthManifest::new(hash, channel_ids.len()))
}

/// What a writer has published: the layout hash and the slot count by path.
#[derive(Default)]
struct Planes {
    published: HashMap<PathBuf, (u64, usize)>,
    log: RefCell<Vec<String>>,
    refused_lease: Option<String>,
}

struct Lease<'a> {
    path: String,
    log: &'a RefCell<Vec<String>>,
}

impl Drop for Lease<'_> {
    fn drop(&mut self) {
        self.log.borrow_mut().push(format!("release {}", self.path));
    }
}

fn short(path: &ShmPath) -> String {
    path.as_path().file_name().unwrap().to_str().unwrap().to_string()
}

impl Planes {
    fn publish(&mut self, path: &ShmPath, layout_hash: u64, slots: usize) {
        self.published
            .insert(path.as_path().clone(), (layout_hash, slots));
    }

    fn layout(&self, config: &ShmClientConfig) -> PortResult<usize> {
        match self.published.get(config.path().as_path()) {
            None => Err(PortError::new(
                PortErrorKind::Unavailable,
                "no writer".to_string(),
            )),
            Some((hash, _)) if *hash != config.expected_layout_hash() => Err(PortError::new(
                PortErrorKind::Conflict,
                "another generation".to_string(),
            )),
            Some((_, slots)) => Ok(*slots),
        }
    }

    fn session(&self) -> PlaneSession<PlanesView<'_>> {
        PlaneSession::new(PlanesView(self))
    }

    fn slot_count(&self, source: &ReconnectingSlotSource) -> PortResult<usize> {
        self.layout(source.config())
    }
}

struct PlanesView<'a>(&'a Planes);

impl<'a> ShmPlaneAccess for PlanesView<'a> {
    type Lease = Lease<'a>;

    fn acquire(&self, path: &ShmPath) -> PortResult<Lease<'a>> {
        let name = short(path);
        self.0.log.borrow_mut().push(format!("acquire {name}"));
        if self.0.refused_lease.as_deref() == Some(name.as_str()) {
            return Err(PortError::new(
                PortErrorKind::Unavailable,
                format!("{name} is leased"),
            ));
        }
        Ok(Lease {
            path: name,
            log: &self.0.log,
        })
    }

    fn validate_point_layout(
        &self,
        source: &ReconnectingSlotSource,
        slot_count: usize,
    ) -> PortResult<()> {
        self.0
            .log
            .borrow_mut()
            .push(format!("point {} {slot_count}", short(source.config().path())));
        let slots = self.0.layout(source.config())?;
        if slots != slot_count {
            return Err(PortError::new(
                PortErrorKind::Conflict,
                "slot count".to_string(),
            ));
        }
        Ok(())
    }

    fn validate_health_layout(&self, reader: &ShmChannelHealthReader) -> PortResult<()> {
        self.0
            .log
            .borrow_mut()
            .push(format!("health {}", short(reader.config().path())));
        let slots = self.0.layout(reader.config())?;
        if slots != reader.manifest().slot_count() {
            return Err(PortError::new(
                PortErrorKind::Conflict,
                "slot count".to_string(),
            ));
        }
        Ok(())
    }
}

/// The health plane as a reader sees it: what was published at its path, and
/// the observations by channel.
struct HealthPlane {
    reader: Arc<ShmChannelHealthReader>,
    published: HashMap<PathBuf, (u64, usize)>,
    observed: HashMap<u32, ChannelHealthObservation>,
}

impl ChannelHealthSource for HealthPlane {
    fn read_channel(&self, channel_id: ChannelId) -> PortResult<Option<ChannelHealthObservation>> {
        let config = self.reader.config();
        match self.published.get(config.path().as_path()) {
            Some((hash, slots))
                if *hash == config.expected_layout_hash()
                    && *slots == self.reader.manifest().slot_count() =>
            {
                Ok(self.observed.get(&channel_id.get()).copied())
            }
            _ => Err(PortError::new(
                PortErrorKind::Unavailable,
                "no such plane".to_string(),
            )),
        }
    }
}

#[test]
fn validated_reader_generation_opens_only_when_both_planes_match() {
    let point_path = path("live.shm");
    let health_path = path("health.shm");
    let points = point_manifest(&[(7, [1, 1, 0, 0])]);
    let health = health_manifest(&[7]);

    let mut planes = Planes::default();
    planes.publish(&point_path, points.layout_hash(), points.slot_count());
    planes.publish(&health_path, health.layout_hash(), health.slot_count());

    let generation = ShmReadTopologyGeneration::open(
        &mut planes.session(),
        ShmClientConfig::new(point_path, points.layout_hash()),
        ShmClientConfig::new(health_path, health.layout_hash()),
        Arc::clone(&points),
        Arc::clone(&health),
    )
    .expect("open coherent read generation");

    assert_eq!(
        generation.point_manifest().layout_hash(),
        points.layout_hash()
    );
    assert_eq!(
        generation.health_manifest().layout_hash(),
        health.layout_hash()
    );
    assert_eq!(planes.slot_count(generation.point_source()).unwrap(), 2);
    let health_plane = HealthPlane {
        reader: Arc::clone(generation.channel_health()),
        published: planes.published.clone(),
        observed: HashMap::new(),
    };
    assert!(health_plane
        .read_channel(ChannelId::new(7))
        .unwrap()
        .is_none());
    assert_eq!(
        generation.channel_health().manifest().layout_hash(),
        health.layout_hash()
    );
    assert_eq!(
        *planes.log.borrow(),
        vec![
            "acquire health.shm",
            "acquire live.shm",
            "point live.shm 2",
            "health health.shm",
            "release live.shm",
            "release health.shm",
        ]
    );
}

#[test]
fn partial_dual_plane_publication_is_never_accepted_as_a_reader_generation() {
    let point_path = path("live.shm");
    let health_path = path("health.shm");
    let old_points = point_manifest(&[(7, [1, 0, 0, 0])]);
    let old_health = health_manifest(&[7]);
    let new_points = point_manifest(&[(7, [1, 0, 0, 0]), (9, [1, 0, 0, 0])]);
    let new_health = health_manifest(&[7, 9]);

    let mut planes = Planes::default();
    planes.publish(&point_path, old_points.layout_hash(), old_points.slot_count());
    planes.publish(&health_path, old_health.layout_hash(), old_health.slot_count());
    planes.publish(&point_path, new_points.layout_hash(), new_points.slot_count());

    let error = ShmReadTopologyGeneration::open(
        &mut planes.session(),
        ShmClientConfig::new(point_path, new_points.layout_hash()),
        ShmClientConfig::new(health_path, new_health.layout_hash()),
        new_points,
        new_health,
    )
    .err()
    .expect("mixed point/health generations must fail closed");

    assert_eq!(error.kind(), PortErrorKind::Conflict);
    assert!(error.is_retryable());
}

#[test]
fn handle_retains_its_previous_generation_when_candidate_validation_fails() {
    let point_path = path("live.shm");
    let health_path = path("health.shm");
    let old_points = point_manifest(&[(7, [1, 0, 0, 0])]);
    let old_health = health_manifest(&[7]);
    let new_points = point_manifest(&[(7, [1, 0, 0, 0]), (9, [1, 0, 0, 0])]);
    let new_health = health_manifest(&[7, 9]);
    let mut planes = Planes::default();
    planes.publish(&point_path, old_points.layout_hash(), old_points.slot_count());
    planes.publish(&health_path, old_health.layout_hash(), old_health.slot_count());
    let initial = Arc::new(
        ShmReadTopologyGeneration::open(
            &mut planes.session(),
            ShmClientConfig::new(point_path.clone(), old_points.layout_hash()),
            ShmClientConfig::new(health_path.clone(), old_health.layout_hash()),
            Arc::clone(&old_points),
            Arc::clone(&old_health),
        )
        .expect("open initial topology"),
    );
    let mut handle = ShmReadTopologyHandle::new(initial);

    planes.publish(&point_path, new_points.layout_hash(), new_points.slot_count());
    let candidate = Arc::new(
        ShmReadTopologyGeneration::new_lazy(
            ShmClientConfig::new(point_path, new_points.layout_hash()),
            ShmClientConfig::new(health_path, new_health.layout_hash()),
            new_points,
            new_health,
        )
        .expect("compose replacement candidate"),
    );

    let error = handle
        .publish(&mut planes.session(), candidate)
        .expect_err("partial physical publication must not advance the handle");

    assert_eq!(error.kind(), PortErrorKind::Conflict);
    assert_eq!(
        handle.load().point_manifest().layout_hash(),
        old_points.layout_hash()
    );
    assert_eq!(
        handle.load().health_manifest().layout_hash(),
        old_health.layout_hash()
    );
}

#[test]
fn composition_hash_mismatch_is_permanent_but_physical_lag_is_retryable() {
    let points = point_manifest(&[(7, [1, 0, 0, 0])]);
    let health = health_manifest(&[7]);

    let error = ShmReadTopologyGeneration::new_lazy(
        ShmClientConfig::new(path("live.shm"), points.layout_hash().wrapping_add(1)),
        ShmClientConfig::new(path("health.shm"), health.layout_hash()),
        points,
        health,
    )
    .err()
    .expect("composition-provided config and manifest must agree");

    assert_eq!(error.kind(), PortErrorKind::InvalidData);
    assert!(!error.is_retryable());
}

#[test]
fn lazy_reader_generation_keeps_service_startup_independent_from_io() {
    let points = point_manifest(&[(7, [1, 0, 0, 0])]);
    let health = health_manifest(&[7]);

    let generation = ShmReadTopologyGeneration::new_lazy(
        ShmClientConfig::new(path("missing-live.shm"), points.layout_hash()),
        ShmClientConfig::new(path("missing-health.shm"), health.layout_hash()),
        points,
        health,
    )
    .expect("compose lazy generation");

    let planes = Planes::default();
    let error = planes
        .slot_count(generation.point_source())
        .expect_err("missing io writer is a retryable read-time condition");
    assert_eq!(error.kind(), PortErrorKind::Unavailable);
    assert!(error.is_retryable());

    let error = generation
        .validate_layouts(&mut planes.session())
        .expect_err("missing planes cannot be validated");
    assert_eq!(error.kind(), PortErrorKind::Unavailable);
    assert!(error.is_retryable());
}

fn lazy(point: &str, health: &str) -> PortResult<ShmReadTopologyGeneration> {
    ShmReadTopologyGeneration::new_lazy(
        ShmClientConfig::new(at(point), 11),
        ShmClientConfig::new(at(health), 12),
        Arc::new(ChannelPointManifest::new(11, 3)),
        Arc::new(ChannelHealthManifest::new(12, 1)),
    )
}

#[test]
fn planes_at_one_path_are_refused_however_the_path_is_spelled() {
    for (point, health) in [
        ("/run/a/live.shm", "/run/a/live.shm"),
        ("/run/a/live.shm", "/run/a//live.shm"),
        ("/run/a/live.shm", "/run/./a/live.shm"),
        ("/run/a/live.shm", "/run/a/live.shm/"),
    ] {
        let error = lazy(point, health).err().expect("one plane is not two");
        assert_eq!(error.kind(), PortErrorKind::InvalidData);
        assert_eq!(
            error.message(),
            "point and channel-health SHM paths must be distinct"
        );
    }
    assert!(lazy("/run/a/live.shm", "/run/a/health.shm").is_ok());
    assert!(lazy("/run/a/live.shm", "/run/b/live.shm").is_ok());
}

#[test]
fn hash_mismatches_name_the_plane_and_both_hashes() {
    let error = validate_config_hash("point", 0x1f, 0xdead_beef_0000_0020).unwrap_err();
    assert_eq!(error.kind(), PortErrorKind::InvalidData);
    assert_eq!(
        error.message(),
        "point SHM client hash 0x000000000000001f does not match manifest hash 0xdeadbeef00000020"
    );
    assert!(validate_config_hash("point", u64::MAX, u64::MAX).is_ok());

    let error = ShmReadTopologyGeneration::new_lazy(
        ShmClientConfig::new(at("a"), 1),
        ShmClientConfig::new(at("b"), u64::MAX),
        Arc::new(ChannelPointManifest::new(1, 3)),
        Arc::new(ChannelHealthManifest::new(0, 1)),
    )
    .err()
    .unwrap();
    assert_eq!(
        error.message(),
        "channel-health SHM client hash 0xffffffffffffffff does not match manifest hash 0x0000000000000000"
    );
}

#[test]
fn composition_is_refused_for_the_path_first_and_then_plane_by_plane() {
    let point = ShmClientConfig::new(at("a"), 1);
    let health = ShmClientConfig::new(at("b"), 2);
    let wrong_points = ChannelPointManifest::new(9, 0);
    let wrong_health = ChannelHealthManifest::new(9, 0);
    let message = |order, points: &ChannelPointManifest, manifest: &ChannelHealthManifest| {
        validate_composition(order, &point, &health, points, manifest)
            .err()
            .map(|error| error.message().clone())
    };
    assert!(message(PathOrder::Same, &wrong_points, &wrong_health)
        .unwrap()
        .starts_with("point and channel-health"));
    assert!(message(PathOrder::Before, &wrong_points, &wrong_health)
        .unwrap()
        .starts_with("point SHM client"));
    assert!(
        message(PathOrder::After, &ChannelPointManifest::new(1, 0), &wrong_health)
            .unwrap()
            .starts_with("channel-health SHM client")
    );
    assert_eq!(
        message(
            PathOrder::After,
            &ChannelPointManifest::new(1, 0),
            &ChannelHealthManifest::new(2, 0)
        ),
        None
    );
}

#[test]
fn leases_are_taken_in_path_order_whatever_the_roles() {
    for (point, health) in [("/run/a.shm", "/run/b.shm"), ("/run/b.shm", "/run/a.shm")] {
        let planes = Planes::default();
        let pair = acquire_authority_pair(
            &mut planes.session(),
            &at(point),
            &at(health),
        );
        assert!(pair.is_ok());
        assert_eq!(
            *planes.log.borrow(),
            vec!["acquire a.shm", "acquire b.shm"]
        );
        drop(pair);
        assert_eq!(planes.log.borrow().len(), 4);
    }
    // Component by component, `a/x` comes before `a.b/x`.
    let planes = Planes::default();
    let pair = acquire_authority_pair(
        &mut planes.session(),
        &at("a.b/second"),
        &at("a/first"),
    );
    assert!(pair.is_ok());
    assert_eq!(*planes.log.borrow(), vec!["acquire first", "acquire second"]);
}

#[test]
fn planes_are_arranged_by_how_their_paths_stand() {
    let left = at("left");
    let right = at("right");
    let names = |(first, second): (&ShmPath, &ShmPath)| format!("{} {}", first.as_path().display(), second.as_path().display());
    assert_eq!(names(arrange_leases(PathOrder::Before, &left, &right)), "left right");
    assert_eq!(names(arrange_leases(PathOrder::Same, &left, &right)), "left right");
    assert_eq!(names(arrange_leases(PathOrder::After, &left, &right)), "right left");
    assert_eq!(names(order_leases(&right, &left)), "left right");
    assert_eq!(left.compare(&right), PathOrder::Before);
    assert_eq!(right.compare(&left), PathOrder::After);
    assert_eq!(left.compare(&at("left/")), PathOrder::Same);
}

#[test]
fn the_worked_path_orders_hold() {
    let planes = Planes::default();
    let _pair = acquire_authority_pair(
        &mut planes.session(),
        &at("shm/live.shm"),
        &at("shm/health.shm"),
    );
    assert_eq!(
        *planes.log.borrow(),
        vec!["acquire health.shm", "acquire live.shm"]
    );
    let (point, health) = (at("a-b/x"), at("a/x"));
    let (first, second) = order_leases(&point, &health);
    assert_eq!(first.as_path(), &PathBuf::from("a/x"));
    assert_eq!(second.as_path(), &PathBuf::from("a-b/x"));
}

#[test]
fn the_greater_path_is_tried_only_after_the_lesser_was_granted() {
    for (refused, log) in [
        ("a.shm", vec!["acquire a.shm"]),
        (
            "b.shm",
            vec!["acquire a.shm", "acquire b.shm", "release a.shm"],
        ),
    ] {
        let planes = Planes {
            refused_lease: Some(refused.to_string()),
            ..Planes::default()
        };
        let error = acquire_authority_pair(
            &mut planes.session(),
            &at("/run/b.shm"),
            &at("/run/a.shm"),
        )
        .err()
        .unwrap();
        assert_eq!(*error.message(), format!("{refused} is leased"));
        assert_eq!(*planes.log.borrow(), log);
    }
}

#[test]
fn a_refused_layout_gives_both_leases_back() {
    let generation = lazy("/run/live.shm", "/run/health.shm").unwrap();
    let mut planes = Planes::default();
    planes.publish(&at("/run/live.shm"), 11, 3);
    let error = generation
        .validate_layouts(&mut planes.session())
        .unwrap_err();
    assert_eq!(error.kind(), PortErrorKind::Unavailable);
    assert_eq!(
        *planes.log.borrow(),
        vec![
            "acquire health.shm",
            "acquire live.shm",
            "point live.shm 3",
            "health health.shm",
            "release live.shm",
            "release health.shm",
        ]
    );
}

#[test]
fn a_refused_lease_ends_the_validation() {
    let generation = lazy("/run/live.shm", "/run/health.shm").unwrap();
    let planes = Planes {
        refused_lease: Some("live.shm".to_string()),
        ..Planes::default()
    };
    let mut published = false;
    let error = generation
        .with_validated_authority(&mut planes.session(), |_held| published = true)
        .unwrap_err();
    assert_eq!(error.message(), "live.shm is leased");
    assert!(!published);
    assert_eq!(
        *planes.log.borrow(),
        vec!["acquire health.shm", "acquire live.shm", "release health.shm"]
    );
}

#[test]
fn publication_runs_while_both_leases_are_held() {
    let generation = lazy("/run/live.shm", "/run/health.shm").unwrap();
    let mut planes = Planes::default();
    planes.publish(&at("/run/live.shm"), 11, 3);
    planes.publish(&at("/run/health.shm"), 12, 1);
    let value = generation
        .with_validated_authority(&mut planes.session(), |_held| {
            planes.log.borrow_mut().push("publish".to_string());
            42
        })
        .unwrap();
    assert_eq!(value, 42);
    assert_eq!(
        *planes.log.borrow(),
        vec![
            "acquire health.shm",
            "acquire live.shm",
            "point live.shm 3",
            "health health.shm",
            "publish",
            "release live.shm",
            "release health.shm",
        ]
    );
}

#[test]
fn an_accepted_candidate_replaces_the_current_generation() {
    let initial = Arc::new(lazy("/run/old-live.shm", "/run/old-health.shm").unwrap());
    let mut handle = ShmReadTopologyHandle::new(Arc::clone(&initial));
    assert!(Arc::ptr_eq(&handle.load(), &initial));

    let candidate = Arc::new(lazy("/run/live.shm", "/run/health.shm").unwrap());
    let mut planes = Planes::default();
    planes.publish(&at("/run/live.shm"), 11, 3);
    planes.publish(&at("/run/health.shm"), 12, 1);
    let pinned = handle.load();
    handle
        .publish(&mut planes.session(), Arc::clone(&candidate))
        .unwrap();
    assert!(Arc::ptr_eq(&handle.load(), &candidate));
    assert!(Arc::ptr_eq(&pinned, &initial));
}

#[test]
fn a_shared_handle_holds_the_initial_generation_or_an_accepted_candidate() {
    let initial = Arc::new(lazy("/run/old-live.shm", "/run/old-health.shm").unwrap());
    let handle = Arc::new(SharedReadTopologyHandle::new(Arc::clone(&initial)));
    let candidate = Arc::new(lazy("/run/live.shm", "/run/health.shm").unwrap());

    let mut planes = Planes::default();
    planes.publish(&at("/run/live.shm"), 11, 3);
    let error = handle
        .publish(&mut planes.session(), Arc::clone(&candidate))
        .unwrap_err();
    assert_eq!(error.kind(), PortErrorKind::Unavailable);
    assert!(Arc::ptr_eq(&handle.load(), &initial));

    planes.publish(&at("/run/health.shm"), 12, 1);
    let pinned = handle.load();
    handle
        .publish(&mut planes.session(), Arc::clone(&candidate))
        .unwrap();
    assert!(Arc::ptr_eq(&handle.load(), &candidate));
    assert!(Arc::ptr_eq(&pinned, &initial));
}

#[test]
fn the_debug_form_shows_the_layouts_only() {
    let generation = ShmReadTopologyGeneration::new_lazy(
        ShmClientConfig::new(at("/secret/live.shm"), 0),
        ShmClientConfig::new(at("/secret/health.shm"), u64::MAX),
        Arc::new(ChannelPointManifest::new(0, 1203)),
        Arc::new(ChannelHealthManifest::new(u64::MAX, 10)),
    )
    .unwrap();
    assert_eq!(
        generation.to_debug_string(),
        "ShmReadTopologyGeneration { point_layout_hash: 0, point_slot_count: 1203, \
         health_layout_hash: 18446744073709551615, health_slot_count: 10 }"
    );
}
