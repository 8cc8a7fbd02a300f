//! The shared wire data model: the message and state types exchanged
//! between a client and the authoritative server.
//!
//! Coordinates and velocities are authoritative only on the server and
//! are mirrored verbatim on clients: the protocol core never does
//! arithmetic on them. They are therefore carried as their 32-bit wire
//! representation (the IEEE-754 bit pattern of the coordinate); the
//! presentation shell converts to and from floating point at the edge.

use vstd::prelude::*;

verus! {

/// A 2-D point, each coordinate as its 32-bit wire representation.
#[derive(Clone, Copy, Debug, PartialEq, Eq, Structural)]
pub struct Position2D {
    pub x_bits: u32,
    pub y_bits: u32,
}

/// A 2-D vector, each component as its 32-bit wire representation.
#[derive(Clone, Copy, Debug, PartialEq, Eq, Structural)]
pub struct Vector2D {
    pub x_bits: u32,
    pub y_bits: u32,
}

/// The ball's position and velocity, mirrored verbatim from the server.
#[derive(Clone, Copy, Debug, PartialEq, Eq, Structural)]
pub struct BallState {
    pub x_bits: u32,
    pub y_bits: u32,
    pub velocity: Vector2D,
}

/// The match score; the server only ever increases these counters.
#[derive(Clone, Copy, Debug, PartialEq, Eq, Structural)]
pub struct Score {
    pub player_one: u32,
    pub player_two: u32,
}

/// One authoritative copy of all dynamic game state, sent server to client.
#[derive(Clone, Copy, Debug, PartialEq, Eq, Structural)]
pub struct Snapshot {
    pub paddle_one: Position2D,
    pub paddle_two: Position2D,
    pub ball: BallState,
    pub score: Score,
}

/// A player's requested paddle direction for the next simulation step.
///
/// Recomputed every tick from raw input; carries no history. `Neutral`
/// means no direction is requested.
#[derive(Clone, Copy, Debug, PartialEq, Eq, Structural)]
pub enum Intent {
    Up,
    Down,
    Neutral,
}

/// A client's current identity in the match: a player slot carrying its
/// current intent, or a spectator, who reports no intent at all.
#[derive(Clone, Copy, Debug, PartialEq, Eq, Structural)]
pub enum Role {
    PlayerOne(Intent),
    PlayerTwo(Intent),
    Spectator,
}

/// An outbound wire message, client to server: one role report per tick.
#[derive(Clone, Copy, Debug, PartialEq, Eq, Structural)]
pub enum ClientMessage {
    PlayerUpdate(Role),
}

/// An inbound wire message, server to client: either a full snapshot of
/// the game state, or the number of the slot this client occupies.
#[derive(Clone, Copy, Debug, PartialEq, Eq, Structural)]
pub enum ServerMessage {
    Snapshot(Snapshot),
    AssignedSlot(u32),
}

/// The last-received authoritative snapshot, read by presentation.
///
/// Created at client startup with zero-valued defaults and overwritten
/// wholesale on every received snapshot: the four fields always come
/// from one and the same snapshot (or all from the startup default).
#[derive(Clone, Copy, Debug, PartialEq, Eq, Structural)]
pub struct GameStateCache {
    pub paddle_one: Position2D,
    pub paddle_two: Position2D,
    pub ball: BallState,
    pub score: Score,
}

/// The zero-valued state a client's cache starts from.
pub open spec fn spec_zero_cache() -> GameStateCache {
    GameStateCache {
        paddle_one: Position2D { x_bits: 0, y_bits: 0 },
        paddle_two: Position2D { x_bits: 0, y_bits: 0 },
        ball: BallState { x_bits: 0, y_bits: 0, velocity: Vector2D { x_bits: 0, y_bits: 0 } },
        score: Score { player_one: 0, player_two: 0 },
    }
}

/// The cache contents that mirror a given snapshot.
pub open spec fn spec_cache_of(s: Snapshot) -> GameStateCache {
    GameStateCache {
        paddle_one: s.paddle_one,
        paddle_two: s.paddle_two,
        ball: s.ball,
        score: s.score,
    }
}

impl GameStateCache {
    /// The cache a client starts with: every field zero-valued.
    pub fn new() -> (c: Self)
        ensures
            c == spec_zero_cache(),
    {
        GameStateCache {
            paddle_one: Position2D { x_bits: 0, y_bits: 0 },
            paddle_two: Position2D { x_bits: 0, y_bits: 0 },
            ball: BallState { x_bits: 0, y_bits: 0, velocity: Vector2D { x_bits: 0, y_bits: 0 } },
            score: Score { player_one: 0, player_two: 0 },
        }
    }

    /// Overwrite the cache wholesale from one snapshot: afterwards all
    /// four fields equal that snapshot's, with no mix of old and new.
    pub fn apply_snapshot(&mut self, s: &Snapshot)
        ensures
            *final(self) == spec_cache_of(*s),
            final(self).paddle_one == s.paddle_one,
            final(self).paddle_two == s.paddle_two,
            final(self).ball == s.ball,
            final(self).score == s.score,
    {
        self.paddle_one = s.paddle_one;
        self.paddle_two = s.paddle_two;
        self.ball = s.ball;
        self.score = s.score;
    }
}

} // verus!
