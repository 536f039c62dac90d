//! Read-side description of one shared-memory plane, and the access to the
//! physical planes that a reader needs.

use crate::port::PortResult;
use crate::shm_path::ShmPath;
use std::sync::Arc;
use vstd::prelude::*;

verus! {

/// Which plane a client reads, and which layout it expects to find there.
pub struct ShmClientConfig {
    path: ShmPath,
    expected_layout_hash: u64,
}

/// What a [`ShmClientConfig`] says.
pub struct ShmClientConfigView {
    /// The plane.
    pub path: ShmPath,
    /// The hash of the expected layout.
    pub expected_layout_hash: u64,
}

impl View for ShmClientConfig {
    type V = ShmClientConfigView;

    closed spec fn view(&self) -> ShmClientConfigView {
        ShmClientConfigView { path: self.path, expected_layout_hash: self.expected_layout_hash }
    }
}

impl ShmClientConfig {
    /// Describes a client of the plane at `path`.
    pub fn new(path: ShmPath, expected_layout_hash: u64) -> (config: Self)
        ensures
            config@.path == path,
            config@.expected_layout_hash == expected_layout_hash,
    {
        ShmClientConfig { path, expected_layout_hash }
    }

    /// Returns the plane's path.
    pub fn path(&self) -> (path: &ShmPath)
        ensures
            *path == self@.path,
    {
        &self.path
    }

    /// Returns the hash of the layout that the client expects.
    pub fn expected_layout_hash(&self) -> (hash: u64)
        ensures
            hash == self@.expected_layout_hash,
    {
        self.expected_layout_hash
    }
}

/// Hash and size of a plane's layout.
pub struct ManifestView {
    /// The hash of the layout.
    pub layout_hash: u64,
    /// The number of slots in it.
    pub slot_count: usize,
}

/// Layout of the point plane.
#[derive(Debug, Clone, Copy, PartialEq, Eq, Structural)]
pub struct ChannelPointManifest {
    layout_hash: u64,
    slot_count: usize,
}

impl View for ChannelPointManifest {
    type V = ManifestView;

    closed spec fn view(&self) -> ManifestView {
        ManifestView { layout_hash: self.layout_hash, slot_count: self.slot_count }
    }
}

impl ChannelPointManifest {
    /// Describes a layout by its hash and its number of slots.
    pub fn new(layout_hash: u64, slot_count: usize) -> (manifest: Self)
        ensures
            manifest@ == (ManifestView { layout_hash, slot_count }),
    {
        ChannelPointManifest { layout_hash, slot_count }
    }

    /// Returns the hash of the layout.
    pub fn layout_hash(&self) -> (hash: u64)
        ensures
            hash == self@.layout_hash,
    {
        self.layout_hash
    }

    /// Returns the number of slots in the layout.
    pub fn slot_count(&self) -> (count: usize)
        ensures
            count == self@.slot_count,
    {
        self.slot_count
    }
}

/// Layout of the channel-health plane.
#[derive(Debug, Clone, Copy, PartialEq, Eq, Structural)]
pub struct ChannelHealthManifest {
    layout_hash: u64,
    slot_count: usize,
}

impl View for ChannelHealthManifest {
    type V = ManifestView;

    closed spec fn view(&self) -> ManifestView {
        ManifestView { layout_hash: self.layout_hash, slot_count: self.slot_count }
    }
}

impl ChannelHealthManifest {
    /// Describes a layout by its hash and its number of slots.
    pub fn new(layout_hash: u64, slot_count: usize) -> (manifest: Self)
        ensures
            manifest@ == (ManifestView { layout_hash, slot_count }),
    {
        ChannelHealthManifest { layout_hash, slot_count }
    }

    /// Returns the hash of the layout.
    pub fn layout_hash(&self) -> (hash: u64)
        ensures
            hash == self@.layout_hash,
    {
        self.layout_hash
    }

    /// Returns the number of slots in the layout.
    pub fn slot_count(&self) -> (count: usize)
        ensures
            count == self@.slot_count,
    {
        self.slot_count
    }
}

/// Point-plane source: which plane to open, whenever it is there.
pub struct ReconnectingSlotSource {
    config: ShmClientConfig,
}

impl View for ReconnectingSlotSource {
    type V = ShmClientConfig;

    closed spec fn view(&self) -> ShmClientConfig {
        self.config
    }
}

impl ReconnectingSlotSource {
    /// Describes a source without opening its plane.
    pub fn new(config: ShmClientConfig) -> (source: Self)
        ensures
            source@ == config,
    {
        ReconnectingSlotSource { config }
    }

    /// Returns the plane and layout that the source reads.
    pub fn config(&self) -> (config: &ShmClientConfig)
        ensures
            *config == self@,
    {
        &self.config
    }
}

/// Health-plane source: which plane to open, and how its channels are laid out.
pub struct ShmChannelHealthReader {
    config: ShmClientConfig,
    manifest: Arc<ChannelHealthManifest>,
}

/// What a [`ShmChannelHealthReader`] reads.
pub struct ShmChannelHealthReaderView {
    /// The plane and the expected layout.
    pub config: ShmClientConfig,
    /// The manifest that the plane is read with.
    pub manifest: ChannelHealthManifest,
}

impl View for ShmChannelHealthReader {
    type V = ShmChannelHealthReaderView;

    closed spec fn view(&self) -> ShmChannelHealthReaderView {
        ShmChannelHealthReaderView { config: self.config, manifest: *self.manifest }
    }
}

impl ShmChannelHealthReader {
    /// Describes a reader without opening its plane.
    pub fn new(config: ShmClientConfig, manifest: Arc<ChannelHealthManifest>) -> (reader: Self)
        ensures
            reader@.config == config,
            reader@.manifest == *manifest,
    {
        ShmChannelHealthReader { config, manifest }
    }

    /// Returns the plane and layout that the reader reads.
    pub fn config(&self) -> (config: &ShmClientConfig)
        ensures
            *config == self@.config,
    {
        &self.config
    }

    /// Returns the manifest that the plane is read with.
    pub fn manifest(&self) -> (manifest: &Arc<ChannelHealthManifest>)
        ensures
            **manifest == self@.manifest,
    {
        &self.manifest
    }
}

/// Access to the physical planes. What a plane holds depends on its writer, so
/// nothing is promised of any reply.
pub trait ShmPlaneAccess {
    /// Held while a plane may not be replaced.
    type Lease;

    /// Takes the shared lease of one plane.
    fn acquire(&self, path: &ShmPath) -> PortResult<Self::Lease>;

    /// Checks that the physical point plane has the layout that its source
    /// expects, with the given number of slots.
    fn validate_point_layout(
        &self,
        source: &ReconnectingSlotSource,
        slot_count: usize,
    ) -> PortResult<()>;

    /// Checks that the physical health plane has the layout that its reader
    /// expects.
    fn validate_health_layout(&self, reader: &ShmChannelHealthReader) -> PortResult<()>;
}

} // verus!
