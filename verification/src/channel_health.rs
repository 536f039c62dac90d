//! Read-only channel connectivity capability.

use crate::domain::{ChannelId, TimestampMs};
use crate::port::PortResult;
use vstd::prelude::*;

verus! {

/// One observed connectivity state from the acquisition-owned health plane.
#[derive(Debug, Clone, Copy, PartialEq, Eq, Structural)]
pub struct ChannelHealthObservation {
    channel_id: ChannelId,
    online: bool,
    observed_at: TimestampMs,
}

/// What a [`ChannelHealthObservation`] records.
pub struct ChannelHealthView {
    /// The physical channel.
    pub channel_id: ChannelId,
    /// Whether acquisition considered it online.
    pub online: bool,
    /// When that was observed.
    pub observed_at: TimestampMs,
}

impl View for ChannelHealthObservation {
    type V = ChannelHealthView;

    closed spec fn view(&self) -> ChannelHealthView {
        ChannelHealthView {
            channel_id: self.channel_id,
            online: self.online,
            observed_at: self.observed_at,
        }
    }
}

impl ChannelHealthObservation {
    /// Creates a typed channel-health observation.
    #[must_use]
    pub fn new(channel_id: ChannelId, online: bool, observed_at: TimestampMs) -> (observation: Self)
        ensures
            observation@ == (ChannelHealthView { channel_id, online, observed_at }),
    {
        ChannelHealthObservation { channel_id, online, observed_at }
    }

    /// Returns the physical channel identity.
    #[must_use]
    pub fn channel_id(self) -> (channel_id: ChannelId)
        ensures
            channel_id == self@.channel_id,
    {
        self.channel_id
    }

    /// Returns whether acquisition currently considers the channel online.
    #[must_use]
    pub fn online(self) -> (online: bool)
        ensures
            online == self@.online,
    {
        self.online
    }

    /// Returns when this state was observed.
    #[must_use]
    pub fn observed_at(self) -> (observed_at: TimestampMs)
        ensures
            observed_at == self@.observed_at,
    {
        self.observed_at
    }

    /// Returns the observation time as a bare number of milliseconds.
    #[must_use]
    pub fn timestamp_ms(self) -> (millis: u64)
        ensures
            millis == self@.observed_at@,
    {
        self.observed_at.get()
    }
}

/// Read-only query port for per-channel connectivity.
pub trait ChannelHealthSource: Send + Sync + 'static {
    /// Reads the latest state. `None` means unconfigured or not observed yet.
    fn read_channel(&self, channel_id: ChannelId) -> PortResult<Option<ChannelHealthObservation>>;
}

} // verus!
