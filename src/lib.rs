//! Synchronization core for host-authoritative peer-to-peer game sessions.
//!
//! - [`frame`]: length-prefixed framing of the reliable stream.
//! - [`session`]: the lobby and active phases of a connection and the
//!   handshake that agrees on the game.
//! - [`sync`]: the messages of the active phase, the host's sequence counter
//!   and the client's rule for dropping stale snapshots.
//! - [`engine`]: the hosted-game contract and the run loop's decision step.
//! - [`games`]: the bundled games.
//! - [`menu`], [`runner`]: the start menu, game catalog and lobby loop.
//! - [`text`]: character-level helpers.

pub mod frame;
pub mod text;
pub mod sync;
pub mod session;
pub mod engine;
pub mod games;
pub mod menu;
pub mod runner;
