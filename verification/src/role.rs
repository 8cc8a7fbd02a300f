//! The role-assignment state machine.
//!
//! A client starts as a spectator. A slot assignment from the server
//! moves it, unconditionally, to the role the slot number names: slot 1
//! is player one, slot 2 is player two, any other number a spectator.
//! Each tick a player's intent is recomputed from the raw input flags,
//! with "up" taking priority over "down"; a spectator's input is never
//! polled and a spectator never carries an intent.

use vstd::prelude::*;

use crate::protocol::Intent;
use crate::protocol::Role;

verus! {

/// The role a slot assignment puts a client in: slot 1 is player one,
/// slot 2 is player two, any other number a spectator. A fresh player
/// role always starts with a neutral intent.
pub open spec fn spec_slot_role(n: u32) -> Role {
    if n == 1 {
        Role::PlayerOne(Intent::Neutral)
    } else if n == 2 {
        Role::PlayerTwo(Intent::Neutral)
    } else {
        Role::Spectator
    }
}

/// The intent the raw input flags resolve to: "up" wins over "down"
/// when both are pressed, and no press at all is neutral.
pub open spec fn spec_intent_of(up: bool, down: bool) -> Intent {
    if up {
        Intent::Up
    } else if down {
        Intent::Down
    } else {
        Intent::Neutral
    }
}

/// The role after one tick of input: a player's intent is replaced by
/// what the flags resolve to, a spectator is left untouched.
pub open spec fn spec_update_intent(r: Role, up: bool, down: bool) -> Role {
    match r {
        Role::PlayerOne(_) => Role::PlayerOne(spec_intent_of(up, down)),
        Role::PlayerTwo(_) => Role::PlayerTwo(spec_intent_of(up, down)),
        Role::Spectator => Role::Spectator,
    }
}

/// The intent a role currently reports: a player's inner intent, and
/// nothing at all for a spectator.
pub open spec fn spec_role_intent(r: Role) -> Option<Intent> {
    match r {
        Role::PlayerOne(i) => Some(i),
        Role::PlayerTwo(i) => Some(i),
        Role::Spectator => None,
    }
}

/// React to a slot assignment from the server: the new role depends on
/// the slot number alone, whatever the client was before, and any
/// previous intent is discarded.
pub fn assign_slot(n: u32) -> (r: Role)
    ensures
        r == spec_slot_role(n),
        n == 1 ==> r == Role::PlayerOne(Intent::Neutral),
        n == 2 ==> r == Role::PlayerTwo(Intent::Neutral),
        n != 1 && n != 2 ==> r == Role::Spectator,
{
    if n == 1 {
        Role::PlayerOne(Intent::Neutral)
    } else if n == 2 {
        Role::PlayerTwo(Intent::Neutral)
    } else {
        Role::Spectator
    }
}

/// One tick of local input: recompute a player's intent from the two
/// raw key flags; a spectator stays a spectator with no intent.
pub fn update_intent(r: &Role, up_pressed: bool, down_pressed: bool) -> (r2: Role)
    ensures
        r2 == spec_update_intent(*r, up_pressed, down_pressed),
{
    if up_pressed {
        match r {
            Role::PlayerOne(_) => Role::PlayerOne(Intent::Up),
            Role::PlayerTwo(_) => Role::PlayerTwo(Intent::Up),
            Role::Spectator => Role::Spectator,
        }
    } else if down_pressed {
        match r {
            Role::PlayerOne(_) => Role::PlayerOne(Intent::Down),
            Role::PlayerTwo(_) => Role::PlayerTwo(Intent::Down),
            Role::Spectator => Role::Spectator,
        }
    } else {
        match r {
            Role::PlayerOne(_) => Role::PlayerOne(Intent::Neutral),
            Role::PlayerTwo(_) => Role::PlayerTwo(Intent::Neutral),
            Role::Spectator => Role::Spectator,
        }
    }
}

/// Priority of "up": for a client holding a player slot, input with the
/// "up" key pressed always resolves to the `Up` intent, never `Down`
/// or `Neutral`, whatever the "down" key does.
pub proof fn lemma_up_priority(r: Role, down_pressed: bool)
    requires
        spec_role_intent(r) is Some,
    ensures
        spec_role_intent(spec_update_intent(r, true, down_pressed)) == Some(Intent::Up),
{
}

/// A spectator never reports an intent: whatever the input flags say,
/// a spectator's role is unchanged and carries no intent.
pub proof fn lemma_spectator_no_intent(up_pressed: bool, down_pressed: bool)
    ensures
        spec_update_intent(Role::Spectator, up_pressed, down_pressed) == Role::Spectator,
        spec_role_intent(spec_update_intent(Role::Spectator, up_pressed, down_pressed)) is None,
{
}

} // verus!
