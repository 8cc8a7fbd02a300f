//! The binary wire codec and framing.
//!
//! Every message is a tag byte followed by its fields in declared order;
//! multi-byte integers travel little-endian. On the byte stream each
//! message body is preceded by a 4-byte little-endian length header.
//! The encoding of every variant round-trips losslessly; the round-trip
//! laws are stated and proved at the end of this module.
//!
//! Wire layout:
//! - intent: one byte (0 up, 1 down, 2 neutral);
//! - role: tag byte (0 player one, 1 player two, 2 spectator), players
//!   followed by their intent byte;
//! - client message: tag 0, then the role;
//! - server message: tag 0, then the 40-byte snapshot body (ten 32-bit
//!   words: both paddles, ball position and velocity, both scores), or
//!   tag 1, then the 32-bit slot number.

use vstd::prelude::*;

use crate::protocol::BallState;
use crate::protocol::ClientMessage;
use crate::protocol::Intent;
use crate::protocol::Position2D;
use crate::protocol::Role;
use crate::protocol::Score;
use crate::protocol::ServerMessage;
use crate::protocol::Snapshot;
use crate::protocol::Vector2D;

verus! {

/// Malformed inbound bytes: no message of the protocol is encoded so.
#[derive(Clone, Copy, Debug, PartialEq, Eq, Structural)]
pub struct DeserializationError;

/// The four little-endian bytes of a 32-bit word.
pub open spec fn spec_u32_le(n: u32) -> Seq<u8> {
    seq![
        (n & 0xff) as u8,
        ((n >> 8) & 0xff) as u8,
        ((n >> 16) & 0xff) as u8,
        ((n >> 24) & 0xff) as u8,
    ]
}

/// The 32-bit word four little-endian bytes spell.
pub open spec fn spec_u32_from_le(b0: u8, b1: u8, b2: u8, b3: u8) -> u32 {
    (b0 as u32) | ((b1 as u32) << 8) | ((b2 as u32) << 16) | ((b3 as u32) << 24)
}

/// The word spelled by the first four bytes of a sequence.
pub open spec fn spec_u32_of(b: Seq<u8>) -> u32 {
    spec_u32_from_le(b[0], b[1], b[2], b[3])
}

/// The word spelled by the four bytes at a given offset.
pub open spec fn spec_u32_at(b: Seq<u8>, off: int) -> u32 {
    spec_u32_of(b.subrange(off, off + 4))
}

/// Splitting a word into little-endian bytes and reassembling them
/// gives the word back.
pub proof fn lemma_u32_le_round_trip(n: u32)
    ensures
        spec_u32_of(spec_u32_le(n)) == n,
{
    assert((((n & 0xff) as u8) as u32) | ((((n >> 8) & 0xff) as u8) as u32) << 8 | ((((n >> 16)
        & 0xff) as u8) as u32) << 16 | ((((n >> 24) & 0xff) as u8) as u32) << 24 == n)
        by (bit_vector);
}

/// Append the four little-endian bytes of a word.
fn push_u32_le(out: &mut Vec<u8>, n: u32)
    ensures
        final(out)@ == old(out)@ + spec_u32_le(n),
{
    proof {
        assert(n & 0xff < 256 && (n >> 8) & 0xff < 256 && (n >> 16) & 0xff < 256 && (n >> 24)
            & 0xff < 256) by (bit_vector);
    }
    out.push((n & 0xff) as u8);
    out.push(((n >> 8) & 0xff) as u8);
    out.push(((n >> 16) & 0xff) as u8);
    out.push(((n >> 24) & 0xff) as u8);
    proof {
        assert(out@ =~= old(out)@ + spec_u32_le(n));
    }
}

/// Read the little-endian word at a given offset.
fn read_u32_le(b: &Vec<u8>, off: usize) -> (n: u32)
    requires
        off + 4 <= b@.len(),
    ensures
        n == spec_u32_at(b@, off as int),
{
    let total = b.len();
    proof {
        assert(off + 4 <= total);
    }
    let b0 = b[off] as u32;
    let b1 = b[off + 1] as u32;
    let b2 = b[off + 2] as u32;
    let b3 = b[off + 3] as u32;
    let n = b0 | (b1 << 8) | (b2 << 16) | (b3 << 24);
    proof {
        assert(b@.subrange(off as int, off as int + 4)[0] == b@[off as int]);
        assert(b@.subrange(off as int, off as int + 4)[1] == b@[off as int + 1]);
        assert(b@.subrange(off as int, off as int + 4)[2] == b@[off as int + 2]);
        assert(b@.subrange(off as int, off as int + 4)[3] == b@[off as int + 3]);
    }
    n
}

/// The tag byte of an intent.
pub open spec fn spec_encode_intent(i: Intent) -> u8 {
    match i {
        Intent::Up => 0u8,
        Intent::Down => 1u8,
        Intent::Neutral => 2u8,
    }
}

/// The intent a tag byte spells, if any.
pub open spec fn spec_decode_intent(t: u8) -> Option<Intent> {
    if t == 0 {
        Some(Intent::Up)
    } else if t == 1 {
        Some(Intent::Down)
    } else if t == 2 {
        Some(Intent::Neutral)
    } else {
        None
    }
}

/// The bytes of a role: a tag byte, and for a player its intent byte.
pub open spec fn spec_encode_role(r: Role) -> Seq<u8> {
    match r {
        Role::PlayerOne(i) => seq![0u8, spec_encode_intent(i)],
        Role::PlayerTwo(i) => seq![1u8, spec_encode_intent(i)],
        Role::Spectator => seq![2u8],
    }
}

/// The role a byte sequence spells, if it spells exactly one.
pub open spec fn spec_decode_role(b: Seq<u8>) -> Option<Role> {
    if b.len() == 1 && b[0] == 2 {
        Some(Role::Spectator)
    } else if b.len() == 2 && b[0] == 0 {
        match spec_decode_intent(b[1]) {
            Some(i) => Some(Role::PlayerOne(i)),
            None => None,
        }
    } else if b.len() == 2 && b[0] == 1 {
        match spec_decode_intent(b[1]) {
            Some(i) => Some(Role::PlayerTwo(i)),
            None => None,
        }
    } else {
        None
    }
}

/// The bytes of an outbound client message: tag 0, then the role.
pub open spec fn spec_encode_client_message(m: ClientMessage) -> Seq<u8> {
    match m {
        ClientMessage::PlayerUpdate(r) => seq![0u8] + spec_encode_role(r),
    }
}

/// The client message a byte sequence spells, if it spells exactly one.
pub open spec fn spec_decode_client_message(b: Seq<u8>) -> Option<ClientMessage> {
    if b.len() >= 1 && b[0] == 0 {
        match spec_decode_role(b.skip(1)) {
            Some(r) => Some(ClientMessage::PlayerUpdate(r)),
            None => None,
        }
    } else {
        None
    }
}

/// The 40-byte body of a snapshot: ten little-endian 32-bit words, in
/// declared field order.
pub open spec fn spec_encode_snapshot(s: Snapshot) -> Seq<u8> {
    spec_u32_le(s.paddle_one.x_bits) + spec_u32_le(s.paddle_one.y_bits) + spec_u32_le(
        s.paddle_two.x_bits,
    ) + spec_u32_le(s.paddle_two.y_bits) + spec_u32_le(s.ball.x_bits) + spec_u32_le(s.ball.y_bits)
        + spec_u32_le(s.ball.velocity.x_bits) + spec_u32_le(s.ball.velocity.y_bits) + spec_u32_le(
        s.score.player_one,
    ) + spec_u32_le(s.score.player_two)
}

/// The snapshot a 40-byte body spells.
pub open spec fn spec_snapshot_from(b: Seq<u8>) -> Snapshot {
    Snapshot {
        paddle_one: Position2D { x_bits: spec_u32_at(b, 0), y_bits: spec_u32_at(b, 4) },
        paddle_two: Position2D { x_bits: spec_u32_at(b, 8), y_bits: spec_u32_at(b, 12) },
        ball: BallState {
            x_bits: spec_u32_at(b, 16),
            y_bits: spec_u32_at(b, 20),
            velocity: Vector2D { x_bits: spec_u32_at(b, 24), y_bits: spec_u32_at(b, 28) },
        },
        score: Score { player_one: spec_u32_at(b, 32), player_two: spec_u32_at(b, 36) },
    }
}

/// The bytes of an inbound server message: tag 0 and the snapshot body,
/// or tag 1 and the slot number.
pub open spec fn spec_encode_server_message(m: ServerMessage) -> Seq<u8> {
    match m {
        ServerMessage::Snapshot(s) => seq![0u8] + spec_encode_snapshot(s),
        ServerMessage::AssignedSlot(n) => seq![1u8] + spec_u32_le(n),
    }
}

/// The server message a byte sequence spells, if it spells exactly one.
pub open spec fn spec_decode_server_message(b: Seq<u8>) -> Option<ServerMessage> {
    if b.len() == 41 && b[0] == 0 {
        Some(ServerMessage::Snapshot(spec_snapshot_from(b.skip(1))))
    } else if b.len() == 5 && b[0] == 1 {
        Some(ServerMessage::AssignedSlot(spec_u32_at(b, 1)))
    } else {
        None
    }
}

/// Serialize one outbound client message.
pub fn encode_client_message(m: &ClientMessage) -> (r: Vec<u8>)
    ensures
        r@ == spec_encode_client_message(*m),
{
    let mut out: Vec<u8> = Vec::new();
    match m {
        ClientMessage::PlayerUpdate(role) => {
            out.push(0u8);
            match role {
                Role::PlayerOne(i) => {
                    out.push(0u8);
                    out.push(intent_tag(i));
                },
                Role::PlayerTwo(i) => {
                    out.push(1u8);
                    out.push(intent_tag(i));
                },
                Role::Spectator => {
                    out.push(2u8);
                },
            }
            proof {
                assert(out@ =~= spec_encode_client_message(*m));
            }
        },
    }
    out
}

/// Serialize one inbound server message (what the server's side of the
/// wire emits; a client's tests and tools use it too).
pub fn encode_server_message(m: &ServerMessage) -> (r: Vec<u8>)
    ensures
        r@ == spec_encode_server_message(*m),
{
    let mut out: Vec<u8> = Vec::new();
    match m {
        ServerMessage::Snapshot(s) => {
            out.push(0u8);
            push_u32_le(&mut out, s.paddle_one.x_bits);
            push_u32_le(&mut out, s.paddle_one.y_bits);
            push_u32_le(&mut out, s.paddle_two.x_bits);
            push_u32_le(&mut out, s.paddle_two.y_bits);
            push_u32_le(&mut out, s.ball.x_bits);
            push_u32_le(&mut out, s.ball.y_bits);
            push_u32_le(&mut out, s.ball.velocity.x_bits);
            push_u32_le(&mut out, s.ball.velocity.y_bits);
            push_u32_le(&mut out, s.score.player_one);
            push_u32_le(&mut out, s.score.player_two);
            proof {
                assert(out@ =~= spec_encode_server_message(*m));
            }
        },
        ServerMessage::AssignedSlot(n) => {
            out.push(1u8);
            push_u32_le(&mut out, *n);
            proof {
                assert(out@ =~= spec_encode_server_message(*m));
            }
        },
    }
    out
}

/// The tag byte of an intent.
fn intent_tag(i: &Intent) -> (t: u8)
    ensures
        t == spec_encode_intent(*i),
{
    match i {
        Intent::Up => 0u8,
        Intent::Down => 1u8,
        Intent::Neutral => 2u8,
    }
}

/// The intent a tag byte spells, if any.
fn intent_of_tag(t: u8) -> (r: Option<Intent>)
    ensures
        r == spec_decode_intent(t),
{
    if t == 0 {
        Some(Intent::Up)
    } else if t == 1 {
        Some(Intent::Down)
    } else if t == 2 {
        Some(Intent::Neutral)
    } else {
        None
    }
}

/// Deserialize one client message; exactly the byte sequences produced
/// by `encode_client_message` are accepted.
pub fn decode_client_message(b: &Vec<u8>) -> (r: Result<ClientMessage, DeserializationError>)
    ensures
        match r {
            Ok(m) => spec_decode_client_message(b@) == Some(m),
            Err(_) => spec_decode_client_message(b@) is None,
        },
{
    proof {
        if b@.len() >= 2 {
            assert(b@.skip(1).len() == b@.len() - 1);
            assert(b@.skip(1)[0] == b@[1]);
            if b@.len() >= 3 {
                assert(b@.skip(1)[1] == b@[2]);
            }
        }
    }
    if b.len() == 2 && b[0] == 0 && b[1] == 2 {
        Ok(ClientMessage::PlayerUpdate(Role::Spectator))
    } else if b.len() == 3 && b[0] == 0 && b[1] == 0 {
        match intent_of_tag(b[2]) {
            Some(i) => Ok(ClientMessage::PlayerUpdate(Role::PlayerOne(i))),
            None => Err(DeserializationError),
        }
    } else if b.len() == 3 && b[0] == 0 && b[1] == 1 {
        match intent_of_tag(b[2]) {
            Some(i) => Ok(ClientMessage::PlayerUpdate(Role::PlayerTwo(i))),
            None => Err(DeserializationError),
        }
    } else {
        proof {
            if b@.len() >= 1 && b@[0] == 0 {
                assert(spec_decode_role(b@.skip(1)) is None);
            }
        }
        Err(DeserializationError)
    }
}

/// Deserialize one server message; exactly the byte sequences produced
/// by `encode_server_message` are accepted.
pub fn decode_server_message(b: &Vec<u8>) -> (r: Result<ServerMessage, DeserializationError>)
    ensures
        match r {
            Ok(m) => spec_decode_server_message(b@) == Some(m),
            Err(_) => spec_decode_server_message(b@) is None,
        },
{
    if b.len() == 41 && b[0] == 0 {
        let s = Snapshot {
            paddle_one: Position2D { x_bits: read_u32_le(b, 1), y_bits: read_u32_le(b, 5) },
            paddle_two: Position2D { x_bits: read_u32_le(b, 9), y_bits: read_u32_le(b, 13) },
            ball: BallState {
                x_bits: read_u32_le(b, 17),
                y_bits: read_u32_le(b, 21),
                velocity: Vector2D { x_bits: read_u32_le(b, 25), y_bits: read_u32_le(b, 29) },
            },
            score: Score { player_one: read_u32_le(b, 33), player_two: read_u32_le(b, 37) },
        };
        proof {
            let body = b@.skip(1);
            assert forall|k: int| 0 <= k && k + 4 <= 40 implies spec_u32_at(body, k) == spec_u32_at(
                b@,
                k + 1,
            ) by {
                assert(body.subrange(k, k + 4) =~= b@.subrange(k + 1, k + 5));
            }
            assert(spec_snapshot_from(body) == s);
        }
        Ok(ServerMessage::Snapshot(s))
    } else if b.len() == 5 && b[0] == 1 {
        Ok(ServerMessage::AssignedSlot(read_u32_le(b, 1)))
    } else {
        Err(DeserializationError)
    }
}

/// Prefix a message body with its 4-byte little-endian length header.
pub fn frame_payload(payload: &Vec<u8>) -> (r: Vec<u8>)
    requires
        payload@.len() <= u32::MAX,
    ensures
        r@ == spec_frame(payload@),
{
    let mut out: Vec<u8> = Vec::new();
    push_u32_le(&mut out, payload.len() as u32);
    let mut i: usize = 0;
    while i < payload.len()
        invariant
            i <= payload@.len(),
            out@ == spec_u32_le(payload@.len() as u32) + payload@.subrange(0, i as int),
        decreases payload@.len() - i,
    {
        out.push(payload[i]);
        proof {
            assert(out@ =~= spec_u32_le(payload@.len() as u32) + payload@.subrange(
                0,
                i as int + 1,
            ));
        }
        i = i + 1;
    }
    proof {
        assert(payload@.subrange(0, payload@.len() as int) =~= payload@);
    }
    out
}

/// A length-prefixed frame: the body's length as a little-endian word,
/// then the body itself.
pub open spec fn spec_frame(payload: Seq<u8>) -> Seq<u8> {
    spec_u32_le(payload.len() as u32) + payload
}

/// The frame beginning at a given offset of the stream, if one is
/// complete there: its body and the offset just past it.
pub open spec fn spec_parse_frame(b: Seq<u8>, start: int) -> Option<(Seq<u8>, int)> {
    if start + 4 <= b.len() {
        let len = spec_u32_at(b, start) as int;
        if start + 4 + len <= b.len() {
            Some((b.subrange(start + 4, start + 4 + len), start + 4 + len))
        } else {
            None
        }
    } else {
        None
    }
}

/// Take one frame off the stream, starting at the given offset: the
/// body and the offset just past the frame, or nothing while the frame
/// is still incomplete.
pub fn parse_frame(b: &Vec<u8>, start: usize) -> (r: Option<(Vec<u8>, usize)>)
    requires
        start <= b@.len(),
    ensures
        match r {
            Some(pair) => spec_parse_frame(b@, start as int) == Some((pair.0@, pair.1 as int)),
            None => spec_parse_frame(b@, start as int) is None,
        },
{
    if b.len() - start < 4 {
        return None;
    }
    let len32 = read_u32_le(b, start);
    let len = len32 as usize;
    if len > b.len() - (start + 4) {
        return None;
    }
    let mut payload: Vec<u8> = Vec::new();
    let mut i: usize = 0;
    while i < len
        invariant
            i <= len,
            start + 4 + len <= b@.len(),
            b@.len() <= usize::MAX,
            payload@ == b@.subrange(start as int + 4, start as int + 4 + i as int),
        decreases len - i,
    {
        payload.push(b[start + 4 + i]);
        proof {
            assert(payload@ =~= b@.subrange(start as int + 4, start as int + 4 + i as int + 1));
        }
        i = i + 1;
    }
    Some((payload, start + 4 + len))
}

/// Round trip of the client-message codec: decoding what any client
/// message encodes to gives that message back.
pub proof fn lemma_client_message_round_trip(m: ClientMessage)
    ensures
        spec_decode_client_message(spec_encode_client_message(m)) == Some(m),
{
    let e = spec_encode_client_message(m);
    match m {
        ClientMessage::PlayerUpdate(r) => {
            assert(e.skip(1) =~= spec_encode_role(r));
            match r {
                Role::PlayerOne(i) => {
                    assert(spec_decode_intent(spec_encode_intent(i)) == Some(i));
                },
                Role::PlayerTwo(i) => {
                    assert(spec_decode_intent(spec_encode_intent(i)) == Some(i));
                },
                Role::Spectator => {
                },
            }
        },
    }
}

/// Round trip of the server-message codec: decoding what any server
/// message encodes to gives that message back.
#[verifier::rlimit(50)]
pub proof fn lemma_server_message_round_trip(m: ServerMessage)
    ensures
        spec_decode_server_message(spec_encode_server_message(m)) == Some(m),
{
    let e = spec_encode_server_message(m);
    match m {
        ServerMessage::Snapshot(s) => {
            let body = e.skip(1);
            assert(body =~= spec_encode_snapshot(s));
            lemma_snapshot_round_trip(s);
        },
        ServerMessage::AssignedSlot(n) => {
            assert(e.subrange(1, 5) =~= spec_u32_le(n));
            lemma_u32_le_round_trip(n);
        },
    }
}

/// Round trip of the snapshot body: reading the ten words back out of
/// an encoded snapshot gives the original snapshot.
#[verifier::rlimit(50)]
pub proof fn lemma_snapshot_round_trip(s: Snapshot)
    ensures
        spec_snapshot_from(spec_encode_snapshot(s)) == s,
{
    let body = spec_encode_snapshot(s);
    assert(body.subrange(0, 4) =~= spec_u32_le(s.paddle_one.x_bits));
    assert(body.subrange(4, 8) =~= spec_u32_le(s.paddle_one.y_bits));
    assert(body.subrange(8, 12) =~= spec_u32_le(s.paddle_two.x_bits));
    assert(body.subrange(12, 16) =~= spec_u32_le(s.paddle_two.y_bits));
    assert(body.subrange(16, 20) =~= spec_u32_le(s.ball.x_bits));
    assert(body.subrange(20, 24) =~= spec_u32_le(s.ball.y_bits));
    assert(body.subrange(24, 28) =~= spec_u32_le(s.ball.velocity.x_bits));
    assert(body.subrange(28, 32) =~= spec_u32_le(s.ball.velocity.y_bits));
    assert(body.subrange(32, 36) =~= spec_u32_le(s.score.player_one));
    assert(body.subrange(36, 40) =~= spec_u32_le(s.score.player_two));
    lemma_u32_le_round_trip(s.paddle_one.x_bits);
    lemma_u32_le_round_trip(s.paddle_one.y_bits);
    lemma_u32_le_round_trip(s.paddle_two.x_bits);
    lemma_u32_le_round_trip(s.paddle_two.y_bits);
    lemma_u32_le_round_trip(s.ball.x_bits);
    lemma_u32_le_round_trip(s.ball.y_bits);
    lemma_u32_le_round_trip(s.ball.velocity.x_bits);
    lemma_u32_le_round_trip(s.ball.velocity.y_bits);
    lemma_u32_le_round_trip(s.score.player_one);
    lemma_u32_le_round_trip(s.score.player_two);
}

/// Round trip of framing: parsing a stream that begins with a framed
/// body yields exactly that body and stops just past it, whatever
/// follows.
pub proof fn lemma_frame_round_trip(payload: Seq<u8>, rest: Seq<u8>)
    requires
        payload.len() <= u32::MAX,
    ensures
        spec_parse_frame(spec_frame(payload) + rest, 0) == Some(
            (payload, 4 + payload.len() as int),
        ),
{
    let b = spec_frame(payload) + rest;
    assert(b.subrange(0, 4) =~= spec_u32_le(payload.len() as u32));
    lemma_u32_le_round_trip(payload.len() as u32);
    assert(b.subrange(4, 4 + payload.len() as int) =~= payload);
}

} // verus!
