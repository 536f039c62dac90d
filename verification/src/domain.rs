//! Identities and point classes shared by every plane.

use vstd::prelude::*;

verus! {

/// Identity of one physical channel.
#[derive(Debug, Clone, Copy, PartialEq, Eq, Structural)]
pub struct ChannelId {
    raw: u32,
}

impl View for ChannelId {
    type V = u32;

    closed spec fn view(&self) -> u32 {
        self.raw
    }
}

impl ChannelId {
    /// Names the channel with the given number.
    pub fn new(raw: u32) -> (id: Self)
        ensures
            id@ == raw,
    {
        ChannelId { raw }
    }

    /// Returns the channel's number.
    pub fn get(self) -> (raw: u32)
        ensures
            raw == self@,
    {
        self.raw
    }
}

/// Milliseconds since the epoch at which something was observed.
#[derive(Debug, Clone, Copy, PartialEq, Eq, Structural)]
pub struct TimestampMs {
    millis: u64,
}

impl View for TimestampMs {
    type V = u64;

    closed spec fn view(&self) -> u64 {
        self.millis
    }
}

impl TimestampMs {
    /// Wraps a number of milliseconds.
    pub fn new(millis: u64) -> (timestamp: Self)
        ensures
            timestamp@ == millis,
    {
        TimestampMs { millis }
    }

    /// Returns the number of milliseconds.
    pub fn get(self) -> (millis: u64)
        ensures
            millis == self@,
    {
        self.millis
    }
}

/// Class of a point as the routing tables name it.
#[derive(Debug, Clone, Copy, PartialEq, Eq, Structural)]
pub enum PointType {
    /// Measured analogue value.
    Telemetry,
    /// Measured discrete state.
    Signal,
    /// Discrete output.
    Control,
    /// Analogue output.
    Adjustment,
}

/// Class of a point as the shared-memory planes name it.
#[derive(Debug, Clone, Copy, PartialEq, Eq, Structural)]
pub enum PointKind {
    /// Measured analogue value.
    Telemetry,
    /// Measured discrete state.
    Status,
    /// Discrete output.
    Command,
    /// Analogue output.
    Action,
}

} // verus!
