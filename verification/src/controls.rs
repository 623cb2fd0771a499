//! The thrust a player asks of their vehicle, read off the key states.

use crate::keymap::{KeyMap, KeyState};
use vstd::prelude::*;

verus! {

/// Thrust asked of a vehicle for one tick, counted in halves of full thrust:
/// `2` is full thrust forwards (or to the left), `-2` full thrust backwards
/// (or to the right).
#[derive(Debug, Clone, Copy, PartialEq, Eq, Structural)]
pub struct ThrustCommand {
    pub linear_halves: i8,
    pub angular_halves: i8,
}

/// The pull of two opposed keys: `1` where only the first is held, `-1` where
/// only the second is, `0` where both or neither are.
pub open spec fn spec_axis(positive: KeyState, negative: KeyState) -> int {
    (if positive.spec_active() { 1int } else { 0int })
        - (if negative.spec_active() { 1int } else { 0int })
}

/// Whether the player holds a turn key.
pub open spec fn spec_turning(keys: KeyMap) -> bool {
    keys.turn_left.spec_active() || keys.turn_right.spec_active()
}

/// Linear thrust in halves: full thrust along the pull of the forwards and
/// backwards keys, cut to half while the player holds a turn key.
pub open spec fn spec_linear_halves(keys: KeyMap) -> int {
    if spec_turning(keys) {
        spec_axis(keys.forwards, keys.backwards)
    } else {
        2 * spec_axis(keys.forwards, keys.backwards)
    }
}

/// Angular thrust in halves: full thrust along the pull of the two turn keys.
pub open spec fn spec_angular_halves(keys: KeyMap) -> int {
    2 * spec_axis(keys.turn_left, keys.turn_right)
}

fn axis(positive: &KeyState, negative: &KeyState) -> (pull: i8)
    ensures
        pull == spec_axis(*positive, *negative),
{
    let mut pull: i8 = 0;
    if positive.active() {
        pull = pull + 1;
    }
    if negative.active() {
        pull = pull - 1;
    }
    pull
}

/// The thrust that the held keys ask for on this tick.
pub fn player_thrust(keys: &KeyMap) -> (thrust: ThrustCommand)
    ensures
        thrust.linear_halves == spec_linear_halves(*keys),
        thrust.angular_halves == spec_angular_halves(*keys),
{
    let linear: i8 = axis(&keys.forwards, &keys.backwards);
    let angular: i8 = axis(&keys.turn_left, &keys.turn_right);
    let turning = keys.turn_left.active() || keys.turn_right.active();
    ThrustCommand {
        linear_halves: if turning { linear } else { 2 * linear },
        angular_halves: 2 * angular,
    }
}

/// Neither thrust ever passes full thrust, in either direction.
pub proof fn lemma_thrust_is_bounded(keys: KeyMap)
    ensures
        -2 <= spec_linear_halves(keys) <= 2,
        -2 <= spec_angular_halves(keys) <= 2,
{
}

/// With no key held the vehicle is asked for no thrust at all.
pub proof fn lemma_idle_keys_give_no_thrust(keys: KeyMap)
    requires
        !keys.forwards.spec_active(),
        !keys.backwards.spec_active(),
        !keys.turn_left.spec_active(),
        !keys.turn_right.spec_active(),
    ensures
        spec_linear_halves(keys) == 0,
        spec_angular_halves(keys) == 0,
{
}

/// Two opposed keys held together cancel each other.
pub proof fn lemma_opposed_keys_cancel(keys: KeyMap)
    ensures
        keys.forwards.spec_active() == keys.backwards.spec_active() ==> spec_linear_halves(keys)
            == 0,
        keys.turn_left.spec_active() == keys.turn_right.spec_active() ==> spec_angular_halves(keys)
            == 0,
{
}

/// While the player turns, linear thrust never passes half thrust.
pub proof fn lemma_turning_halves_linear_thrust(keys: KeyMap)
    requires
        spec_turning(keys),
    ensures
        -1 <= spec_linear_halves(keys) <= 1,
{
}

/// A tick of the key states with no event in between asks for the same
/// thrust as before.
pub proof fn lemma_thrust_survives_a_tick(keys: KeyMap)
    ensures
        spec_linear_halves(keys.spec_update()) == spec_linear_halves(keys),
        spec_angular_halves(keys.spec_update()) == spec_angular_halves(keys),
{
}

} // verus!
