//! Client-side core of a two-player networked Pong game.
//!
//! The library covers the client–server state-synchronization protocol:
//! the shared wire data model, the binary codec and framing used on the
//! wire, the role-assignment state machine that tracks whether this
//! client is player one, player two, or a spectator, the cache of the
//! last authoritative snapshot, and the per-tick synchronization step.
//!
//! Everything that touches a window, a keyboard, or a socket lives
//! outside this crate; the library works on plain values handed in by
//! that surrounding shell.

pub mod codec;
pub mod protocol;
pub mod role;
pub mod sync;

pub use codec::DeserializationError;
pub use protocol::BallState;
pub use protocol::ClientMessage;
pub use protocol::GameStateCache;
pub use protocol::Intent;
pub use protocol::Position2D;
pub use protocol::Role;
pub use protocol::Score;
pub use protocol::ServerMessage;
pub use protocol::Snapshot;
pub use protocol::Vector2D;
pub use sync::ClientState;
