//! Live-state reads for rule evaluation over an atomically replaceable,
//! two-plane shared-memory topology.
//!
//! * [`domain`] and [`port`] hold the plain vocabulary: identities, point
//!   classes, errors, and the topology fence a command carries.
//! * [`channel_health`] is the per-channel connectivity capability.
//! * [`shm_path`], [`shm_client`] and [`read_topology`] describe one coherent
//!   point/health generation and how it is validated; [`authority`] records what
//!   is done with the physical planes, [`generation_slot`] and
//!   [`topology_handle`] publish.
//! * [`point_table`] and [`routing`] resolve logical instance points.
//! * [`live_state`] and [`rule_live_state`] are the rule-facing read adapters;
//!   [`read_session`] records what they read.
//! * [`text`] renders the numbers that appear in messages.
//! * [`laws`] states what calls give back, of their arguments and results alone.

pub mod authority;
pub mod channel_health;
pub mod domain;
pub mod generation_slot;
pub mod laws;
pub mod live_state;
pub mod point_table;
pub mod port;
pub mod read_session;
pub mod read_topology;
pub mod routing;
pub mod rule_live_state;
pub mod shm_client;
pub mod shm_path;
pub mod text;
pub mod topology_handle;
