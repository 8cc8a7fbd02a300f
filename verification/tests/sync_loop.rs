//! Tests of the per-tick synchronization step and the snapshot cache.

use pong_protocol::BallState;
use pong_protocol::ClientMessage;
use pong_protocol::GameStateCache;
use pong_protocol::Intent;
use pong_protocol::Position2D;
use pong_protocol::Role;
use pong_protocol::Score;
use pong_protocol::ServerMessage;
use pong_protocol::Snapshot;
use pong_protocol::Vector2D;
use pong_protocol::sync::ClientState;

fn snapshot(px: u32, bx: u32, s1: u32, s2: u32) -> Snapshot {
    Snapshot {
        paddle_one: Position2D { x_bits: px, y_bits: px },
        paddle_two: Position2D { x_bits: px, y_bits: px },
        ball: BallState {
            x_bits: bx,
            y_bits: bx,
            velocity: Vector2D { x_bits: bx, y_bits: bx },
        },
        score: Score { player_one: s1, player_two: s2 },
    }
}

fn fresh_client() -> ClientState {
    ClientState {
        role: Role::Spectator,
        cache: GameStateCache::new(),
    }
}

#[test]
fn new_cache_starts_zero_valued() {
    let c = GameStateCache::new();
    assert_eq!(c.paddle_one, Position2D { x_bits: 0, y_bits: 0 });
    assert_eq!(c.paddle_two, Position2D { x_bits: 0, y_bits: 0 });
    assert_eq!(
        c.ball,
        BallState {
            x_bits: 0,
            y_bits: 0,
            velocity: Vector2D { x_bits: 0, y_bits: 0 },
        }
    );
    assert_eq!(c.score, Score { player_one: 0, player_two: 0 });
}

#[test]
fn apply_snapshot_replaces_all_four_fields() {
    let mut c = GameStateCache::new();
    let first = snapshot(10, 20, 1, 2);
    c.apply_snapshot(&first);
    let second = snapshot(30, 40, 3, 4);
    c.apply_snapshot(&second);
    // No field of the first snapshot survives: the cache mirrors the
    // second one wholesale.
    assert_eq!(c.paddle_one, second.paddle_one);
    assert_eq!(c.paddle_two, second.paddle_two);
    assert_eq!(c.ball, second.ball);
    assert_eq!(c.score, second.score);
}

#[test]
fn assignment_then_snapshot_fills_role_and_cache() {
    let mut st = fresh_client();
    let zero = snapshot(0, 0, 0, 0);
    let inbound = vec![
        ServerMessage::AssignedSlot(1),
        ServerMessage::Snapshot(zero),
    ];
    let out = st.sync_tick(false, false, &inbound);
    assert_eq!(out, ClientMessage::PlayerUpdate(Role::Spectator));
    assert_eq!(st.role, Role::PlayerOne(Intent::Neutral));
    assert_eq!(st.cache.paddle_one, zero.paddle_one);
    assert_eq!(st.cache.paddle_two, zero.paddle_two);
    assert_eq!(st.cache.ball, zero.ball);
    assert_eq!(st.cache.score, zero.score);
}

#[test]
fn one_report_per_tick_while_up_is_held() {
    let mut st = fresh_client();
    st.role = Role::PlayerOne(Intent::Up);
    let empty: Vec<ServerMessage> = Vec::new();
    // Each tick produces exactly one outbound message; with "up" held
    // and nothing else arriving it is the same report every tick.
    for _tick in 0..3 {
        let out = st.sync_tick(true, false, &empty);
        assert_eq!(
            out,
            ClientMessage::PlayerUpdate(Role::PlayerOne(Intent::Up))
        );
        assert_eq!(st.role, Role::PlayerOne(Intent::Up));
    }
}

#[test]
fn slot_three_makes_a_spectator_with_no_intent_ever() {
    let mut st = fresh_client();
    st.role = Role::PlayerOne(Intent::Up);
    let inbound = vec![ServerMessage::AssignedSlot(3)];
    st.sync_tick(false, false, &inbound);
    assert_eq!(st.role, Role::Spectator);
    // Later ticks poll input, but a spectator never carries an intent.
    let empty: Vec<ServerMessage> = Vec::new();
    for (up, down) in [(true, false), (false, true), (true, true), (false, false)] {
        let out = st.sync_tick(up, down, &empty);
        assert_eq!(out, ClientMessage::PlayerUpdate(Role::Spectator));
        assert_eq!(st.role, Role::Spectator);
    }
}

#[test]
fn last_snapshot_of_a_batch_wins() {
    let mut st = fresh_client();
    let older = snapshot(11, 12, 1, 0);
    let newer = snapshot(21, 22, 1, 1);
    let inbound = vec![
        ServerMessage::Snapshot(older),
        ServerMessage::Snapshot(newer),
    ];
    st.sync_tick(false, false, &inbound);
    assert_eq!(st.cache.paddle_one, newer.paddle_one);
    assert_eq!(st.cache.paddle_two, newer.paddle_two);
    assert_eq!(st.cache.ball, newer.ball);
    assert_eq!(st.cache.score, newer.score);
}

#[test]
fn report_carries_the_role_seen_before_the_batch() {
    // An assignment arriving this tick takes effect from the next
    // report on: this tick's report still carries the old role.
    let mut st = fresh_client();
    st.role = Role::PlayerTwo(Intent::Neutral);
    let inbound = vec![ServerMessage::AssignedSlot(1)];
    let out = st.sync_tick(false, true, &inbound);
    assert_eq!(
        out,
        ClientMessage::PlayerUpdate(Role::PlayerTwo(Intent::Down))
    );
    assert_eq!(st.role, Role::PlayerOne(Intent::Neutral));
    let out2 = st.sync_tick(false, true, &Vec::new());
    assert_eq!(
        out2,
        ClientMessage::PlayerUpdate(Role::PlayerOne(Intent::Down))
    );
}

#[test]
fn a_batch_of_assignments_resolves_to_the_last_slot() {
    // Reassignment is legal at any time and reads nothing but the slot
    // number: after a run of assignments only the last one counts.
    let mut st = fresh_client();
    st.role = Role::PlayerOne(Intent::Up);
    let inbound = vec![
        ServerMessage::AssignedSlot(2),
        ServerMessage::AssignedSlot(3),
        ServerMessage::AssignedSlot(1),
    ];
    st.sync_tick(true, true, &inbound);
    assert_eq!(st.role, Role::PlayerOne(Intent::Neutral));
}

#[test]
fn mixed_batch_applies_in_arrival_order() {
    let mut st = fresh_client();
    let snap = snapshot(5, 6, 2, 3);
    let inbound = vec![
        ServerMessage::AssignedSlot(1),
        ServerMessage::Snapshot(snap),
        ServerMessage::AssignedSlot(2),
    ];
    st.sync_tick(false, false, &inbound);
    assert_eq!(st.role, Role::PlayerTwo(Intent::Neutral));
    assert_eq!(st.cache.score, snap.score);
}
