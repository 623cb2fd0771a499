use swoop::controls::{player_thrust, ThrustCommand};
use swoop::keymap::{KeyMap, KeyState};

const STATES: [KeyState; 4] =
    [KeyState::JustPressed, KeyState::Down, KeyState::JustReleased, KeyState::Up];

fn keys(forwards: KeyState, backwards: KeyState, left: KeyState, right: KeyState) -> KeyMap {
    KeyMap { forwards, backwards, turn_left: left, turn_right: right }
}

#[test]
fn idle_keys_ask_for_nothing() {
    assert_eq!(
        player_thrust(&KeyMap::new()),
        ThrustCommand { linear_halves: 0, angular_halves: 0 }
    );
    let released =
        keys(KeyState::JustReleased, KeyState::Up, KeyState::JustReleased, KeyState::Up);
    assert_eq!(player_thrust(&released), ThrustCommand { linear_halves: 0, angular_halves: 0 });
}

#[test]
fn forwards_alone_is_full_thrust() {
    let held = keys(KeyState::Down, KeyState::Up, KeyState::Up, KeyState::Up);
    assert_eq!(player_thrust(&held), ThrustCommand { linear_halves: 2, angular_halves: 0 });
    let pressed = keys(KeyState::JustPressed, KeyState::Up, KeyState::Up, KeyState::Up);
    assert_eq!(player_thrust(&pressed), ThrustCommand { linear_halves: 2, angular_halves: 0 });
}

#[test]
fn backwards_alone_is_full_reverse() {
    let held = keys(KeyState::Up, KeyState::Down, KeyState::Up, KeyState::Up);
    assert_eq!(player_thrust(&held), ThrustCommand { linear_halves: -2, angular_halves: 0 });
}

#[test]
fn turning_is_full_angular_thrust() {
    let left = keys(KeyState::Up, KeyState::Up, KeyState::Down, KeyState::Up);
    assert_eq!(player_thrust(&left), ThrustCommand { linear_halves: 0, angular_halves: 2 });
    let right = keys(KeyState::Up, KeyState::Up, KeyState::Up, KeyState::JustPressed);
    assert_eq!(player_thrust(&right), ThrustCommand { linear_halves: 0, angular_halves: -2 });
}

#[test]
fn turning_halves_the_linear_thrust() {
    let ahead_left = keys(KeyState::Down, KeyState::Up, KeyState::Down, KeyState::Up);
    assert_eq!(player_thrust(&ahead_left), ThrustCommand { linear_halves: 1, angular_halves: 2 });
    let back_right = keys(KeyState::Up, KeyState::Down, KeyState::Up, KeyState::Down);
    assert_eq!(
        player_thrust(&back_right),
        ThrustCommand { linear_halves: -1, angular_halves: -2 }
    );
    let both_turns = keys(KeyState::Down, KeyState::Up, KeyState::Down, KeyState::Down);
    assert_eq!(player_thrust(&both_turns), ThrustCommand { linear_halves: 1, angular_halves: 0 });
}

#[test]
fn opposed_keys_cancel() {
    let both = keys(KeyState::Down, KeyState::JustPressed, KeyState::Up, KeyState::Up);
    assert_eq!(player_thrust(&both), ThrustCommand { linear_halves: 0, angular_halves: 0 });
}

#[test]
fn thrust_is_bounded_and_survives_a_tick_for_every_key_map() {
    for forwards in STATES {
        for backwards in STATES {
            for left in STATES {
                for right in STATES {
                    let mut map = keys(forwards, backwards, left, right);
                    let thrust = player_thrust(&map);
                    assert!((-2..=2).contains(&thrust.linear_halves));
                    assert!((-2..=2).contains(&thrust.angular_halves));
                    if left.active() || right.active() {
                        assert!((-1..=1).contains(&thrust.linear_halves));
                    }
                    map.update();
                    assert_eq!(player_thrust(&map), thrust);
                }
            }
        }
    }
}
