//! Game-room logic for a buzzer-style trivia server: the room state machine
//! and its scoring rules, the classification of incoming connections, the
//! fan-out of responses, the latency-fairness witness schedule, and the
//! heartbeat-based latency estimator.
use vstd::prelude::*;

pub mod game;
pub mod game_file;
pub mod host;
pub mod latency;
pub mod laws;
pub mod player;
pub mod session;
pub mod tokens;
pub mod ws_msg;

verus! {

/// Identifier of a heartbeat probe, unique within one player's probe stream.
pub type HeartbeatId = u32;

/// Milliseconds since the Unix epoch, or a difference of two such instants.
pub type UnixMs = u64;

} // verus!
