//! The per-tick synchronization step.
//!
//! Once per presentation tick the shell hands the core the two raw input
//! flags and the batch of server messages that arrived since the last
//! tick. The core recomputes the local intent, produces exactly one
//! outbound role report, and then applies the inbound batch in arrival
//! order: a snapshot overwrites the cache wholesale, a slot assignment
//! drives the role machine and discards any previous intent.

use vstd::prelude::*;

use crate::protocol::ClientMessage;
use crate::protocol::GameStateCache;
use crate::protocol::Role;
use crate::protocol::ServerMessage;
use crate::protocol::spec_cache_of;
use crate::role::assign_slot;
use crate::role::spec_slot_role;
use crate::role::spec_update_intent;
use crate::role::update_intent;

verus! {

/// All the protocol state a client owns: its current role and the cache
/// of the last authoritative snapshot. One instance exists per client,
/// owned by the synchronization loop alone.
#[derive(Clone, Copy, Debug, PartialEq, Eq, Structural)]
pub struct ClientState {
    pub role: Role,
    pub cache: GameStateCache,
}

/// The state after one inbound server message: a snapshot replaces the
/// cache and leaves the role alone; a slot assignment replaces the role
/// and leaves the cache alone.
pub open spec fn spec_apply_message(st: ClientState, m: ServerMessage) -> ClientState {
    match m {
        ServerMessage::Snapshot(s) => ClientState { role: st.role, cache: spec_cache_of(s) },
        ServerMessage::AssignedSlot(n) => ClientState { role: spec_slot_role(n), cache: st.cache },
    }
}

/// The state after a whole inbound batch, applied in arrival order.
pub open spec fn spec_apply_batch(st: ClientState, msgs: Seq<ServerMessage>) -> ClientState
    decreases msgs.len(),
{
    if msgs.len() == 0 {
        st
    } else {
        spec_apply_batch(spec_apply_message(st, msgs[0]), msgs.skip(1))
    }
}

impl ClientState {
    /// Apply one inbound server message, in place.
    pub fn apply_message(&mut self, m: &ServerMessage)
        ensures
            *final(self) == spec_apply_message(*old(self), *m),
    {
        match m {
            ServerMessage::Snapshot(s) => {
                self.cache.apply_snapshot(s);
            },
            ServerMessage::AssignedSlot(n) => {
                self.role = assign_slot(*n);
            },
        }
    }

    /// Drain one tick's inbound batch, applying each message in arrival
    /// order.
    pub fn apply_batch(&mut self, msgs: &Vec<ServerMessage>)
        ensures
            *final(self) == spec_apply_batch(*old(self), msgs@),
    {
        let ghost start: ClientState = *self;
        proof {
            assert(msgs@.skip(0) =~= msgs@);
        }
        let mut i: usize = 0;
        while i < msgs.len()
            invariant
                i <= msgs.len(),
                spec_apply_batch(start, msgs@) == spec_apply_batch(*self, msgs@.skip(i as int)),
            decreases msgs.len() - i,
        {
            proof {
                assert(msgs@.skip(i as int)[0] == msgs@[i as int]);
                assert(msgs@.skip(i as int).skip(1) =~= msgs@.skip(i as int + 1));
            }
            self.apply_message(&msgs[i]);
            i = i + 1;
        }
        proof {
            assert(msgs@.skip(msgs@.len() as int) =~= Seq::<ServerMessage>::empty());
        }
    }

    /// One full synchronization tick.
    ///
    /// First the local intent is recomputed from the raw input flags,
    /// and the one outbound message of this tick — a report of exactly
    /// that role — is returned for the shell to transmit. Then the
    /// inbound batch is applied in arrival order. Note that the report
    /// carries the role as it stood before the batch: assignments that
    /// arrive this tick take effect from the next report on.
    pub fn sync_tick(
        &mut self,
        up_pressed: bool,
        down_pressed: bool,
        inbound: &Vec<ServerMessage>,
    ) -> (out: ClientMessage)
        ensures
            out == ClientMessage::PlayerUpdate(
                spec_update_intent(old(self).role, up_pressed, down_pressed),
            ),
            *final(self) == spec_apply_batch(
                ClientState {
                    role: spec_update_intent(old(self).role, up_pressed, down_pressed),
                    cache: old(self).cache,
                },
                inbound@,
            ),
    {
        self.role = update_intent(&self.role, up_pressed, down_pressed);
        let out = ClientMessage::PlayerUpdate(self.role);
        self.apply_batch(inbound);
        out
    }
}

/// A batch of slot assignments lands the client in the role named by the
/// last assignment's slot number, whatever role it held before, and
/// leaves the cache untouched.
pub proof fn lemma_assignments_resolve_to_last(st: ClientState, msgs: Seq<ServerMessage>)
    requires
        msgs.len() > 0,
        forall|i: int| 0 <= i < msgs.len() ==> msgs[i] is AssignedSlot,
    ensures
        spec_apply_batch(st, msgs).role == spec_slot_role(msgs.last()->AssignedSlot_0),
        spec_apply_batch(st, msgs).cache == st.cache,
    decreases msgs.len(),
{
    let st2 = spec_apply_message(st, msgs[0]);
    assert(spec_apply_batch(st, msgs) == spec_apply_batch(st2, msgs.skip(1)));
    if msgs.len() == 1 {
        assert(msgs.skip(1) =~= Seq::<ServerMessage>::empty());
        assert(msgs.last() == msgs[0]);
        assert(spec_apply_batch(st2, msgs.skip(1)) == st2);
    } else {
        assert(forall|i: int| 0 <= i < msgs.skip(1).len() ==> msgs.skip(1)[i] is AssignedSlot);
        assert(msgs.skip(1).last() == msgs.last());
        lemma_assignments_resolve_to_last(st2, msgs.skip(1));
    }
}

/// When the last message of a tick's batch is a snapshot, only that
/// snapshot's values remain in the cache after the tick, whatever
/// arrived before it.
pub proof fn lemma_last_snapshot_wins(st: ClientState, msgs: Seq<ServerMessage>)
    requires
        msgs.len() > 0,
        msgs.last() is Snapshot,
    ensures
        spec_apply_batch(st, msgs).cache == spec_cache_of(msgs.last()->Snapshot_0),
    decreases msgs.len(),
{
    let st2 = spec_apply_message(st, msgs[0]);
    assert(spec_apply_batch(st, msgs) == spec_apply_batch(st2, msgs.skip(1)));
    if msgs.len() == 1 {
        assert(msgs.skip(1) =~= Seq::<ServerMessage>::empty());
        assert(msgs.last() == msgs[0]);
        assert(spec_apply_batch(st2, msgs.skip(1)) == st2);
    } else {
        assert(msgs.skip(1).last() == msgs.last());
        lemma_last_snapshot_wins(st2, msgs.skip(1));
    }
}

} // verus!
