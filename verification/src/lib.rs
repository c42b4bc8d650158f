//! Client-side network core for a turn-based, two-player card game.
//!
//! The crate models the strict request/response protocol spoken with the
//! remote game server: the driver state machine that sequences the
//! handshake, turn loop, prompts and state updates; the pluggable agent
//! that chooses actions; the bi-directional channel bus that connects the
//! network thread to a per-frame consumer loop; and the write-only
//! notifier for out-of-band game events.

pub mod agent;
pub mod board;
pub mod bus;
pub mod driver;
pub mod errors;
pub mod logging;
pub mod messages;
pub mod notifier;
pub mod text;
pub mod types;
pub mod world;
