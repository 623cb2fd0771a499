//! Edge-detecting key states for the four logical actions of a vehicle.

use vstd::prelude::*;

verus! {

/// The state of one logical action between two ticks.
#[derive(Debug, Clone, Copy, PartialEq, Eq, Structural)]
pub enum KeyState {
    /// The key went down since the last tick.
    JustPressed,
    /// The key is held down.
    Down,
    /// The key went up since the last tick.
    JustReleased,
    /// The key is not held down.
    Up,
}

impl KeyState {
    /// The state one tick later, when no raw event arrived in between: an
    /// edge settles into the level it leads to, a level stays.
    pub open spec fn spec_update(self) -> KeyState {
        match self {
            KeyState::JustPressed => KeyState::Down,
            KeyState::Down => KeyState::Down,
            KeyState::JustReleased => KeyState::Up,
            KeyState::Up => KeyState::Up,
        }
    }

    /// Whether the player has the key down, edge or level.
    pub open spec fn spec_active(self) -> bool {
        self == KeyState::JustPressed || self == KeyState::Down
    }

    pub fn update(&self) -> (next: KeyState)
        ensures
            next == self.spec_update(),
    {
        match self {
            KeyState::JustPressed => KeyState::Down,
            KeyState::Down => KeyState::Down,
            KeyState::JustReleased => KeyState::Up,
            KeyState::Up => KeyState::Up,
        }
    }

    pub fn active(&self) -> (held: bool)
        ensures
            held == self.spec_active(),
    {
        match self {
            KeyState::JustPressed => true,
            KeyState::Down => true,
            KeyState::JustReleased => false,
            KeyState::Up => false,
        }
    }
}

/// One of the four logical actions a player can hold.
#[derive(Debug, Clone, Copy, PartialEq, Eq, Structural)]
pub enum Action {
    Forwards,
    Backwards,
    TurnLeft,
    TurnRight,
}

impl Action {
    /// The raw key identifier that drives this action.
    pub open spec fn spec_code(self) -> Seq<char> {
        match self {
            Action::Forwards => "KeyW"@,
            Action::Backwards => "KeyS"@,
            Action::TurnLeft => "KeyA"@,
            Action::TurnRight => "KeyD"@,
        }
    }

    pub fn code(self) -> (code: &'static str)
        ensures
            code@ == self.spec_code(),
    {
        match self {
            Action::Forwards => "KeyW",
            Action::Backwards => "KeyS",
            Action::TurnLeft => "KeyA",
            Action::TurnRight => "KeyD",
        }
    }
}

/// The action that a raw key identifier drives, if it drives any.
pub open spec fn spec_action_for_code(code: Seq<char>) -> Option<Action> {
    if code == Action::Forwards.spec_code() {
        Some(Action::Forwards)
    } else if code == Action::Backwards.spec_code() {
        Some(Action::Backwards)
    } else if code == Action::TurnLeft.spec_code() {
        Some(Action::TurnLeft)
    } else if code == Action::TurnRight.spec_code() {
        Some(Action::TurnRight)
    } else {
        None
    }
}

fn same_text(code: &String, key: &str) -> (same: bool)
    ensures
        same == (code@ == key@),
{
    let owned: String = key.to_owned();
    *code == owned
}

pub fn action_for_code(code: &str) -> (action: Option<Action>)
    ensures
        action == spec_action_for_code(code@),
{
    let owned: String = code.to_owned();
    if same_text(&owned, Action::Forwards.code()) {
        Some(Action::Forwards)
    } else if same_text(&owned, Action::Backwards.code()) {
        Some(Action::Backwards)
    } else if same_text(&owned, Action::TurnLeft.code()) {
        Some(Action::TurnLeft)
    } else if same_text(&owned, Action::TurnRight.code()) {
        Some(Action::TurnRight)
    } else {
        None
    }
}

/// The states of the four logical actions.
#[derive(Debug, Clone, Copy, PartialEq, Eq, Structural)]
pub struct KeyMap {
    pub forwards: KeyState,
    pub backwards: KeyState,
    pub turn_left: KeyState,
    pub turn_right: KeyState,
}

impl KeyMap {
    /// The state of one action.
    pub open spec fn spec_state(self, action: Action) -> KeyState {
        match action {
            Action::Forwards => self.forwards,
            Action::Backwards => self.backwards,
            Action::TurnLeft => self.turn_left,
            Action::TurnRight => self.turn_right,
        }
    }

    /// This map with one action set to `state` and the others untouched.
    pub open spec fn spec_with(self, action: Action, state: KeyState) -> KeyMap {
        match action {
            Action::Forwards => KeyMap { forwards: state, ..self },
            Action::Backwards => KeyMap { backwards: state, ..self },
            Action::TurnLeft => KeyMap { turn_left: state, ..self },
            Action::TurnRight => KeyMap { turn_right: state, ..self },
        }
    }

    /// Every action advanced by one tick.
    pub open spec fn spec_update(self) -> KeyMap {
        KeyMap {
            forwards: self.forwards.spec_update(),
            backwards: self.backwards.spec_update(),
            turn_left: self.turn_left.spec_update(),
            turn_right: self.turn_right.spec_update(),
        }
    }

    /// The action behind `code` set to `state`; an unmapped code changes
    /// nothing.
    pub open spec fn spec_set_state(self, code: Seq<char>, state: KeyState) -> KeyMap {
        match spec_action_for_code(code) {
            Some(action) => self.spec_with(action, state),
            None => self,
        }
    }

    /// The map after a raw key-down: a fresh press marks the action as just
    /// pressed, a hardware repeat is dropped.
    pub open spec fn spec_key_down(self, code: Seq<char>, is_repeat: bool) -> KeyMap {
        if is_repeat {
            self
        } else {
            self.spec_set_state(code, KeyState::JustPressed)
        }
    }

    /// The map after a raw key-up.
    pub open spec fn spec_key_up(self, code: Seq<char>) -> KeyMap {
        self.spec_set_state(code, KeyState::JustReleased)
    }

    pub fn new() -> (keys: Self)
        ensures
            keys == (KeyMap {
                forwards: KeyState::Up,
                backwards: KeyState::Up,
                turn_left: KeyState::Up,
                turn_right: KeyState::Up,
            }),
    {
        Self {
            forwards: KeyState::Up,
            backwards: KeyState::Up,
            turn_left: KeyState::Up,
            turn_right: KeyState::Up,
        }
    }

    pub fn state(&self, action: Action) -> (state: KeyState)
        ensures
            state == self.spec_state(action),
    {
        match action {
            Action::Forwards => self.forwards,
            Action::Backwards => self.backwards,
            Action::TurnLeft => self.turn_left,
            Action::TurnRight => self.turn_right,
        }
    }

    pub fn update(&mut self)
        ensures
            *final(self) == old(self).spec_update(),
    {
        self.forwards = self.forwards.update();
        self.backwards = self.backwards.update();
        self.turn_left = self.turn_left.update();
        self.turn_right = self.turn_right.update();
    }

    pub fn set_state_from_str(&mut self, code: &str, new_state: KeyState)
        ensures
            *final(self) == old(self).spec_set_state(code@, new_state),
    {
        match action_for_code(code) {
            Some(Action::Forwards) => self.forwards = new_state,
            Some(Action::Backwards) => self.backwards = new_state,
            Some(Action::TurnLeft) => self.turn_left = new_state,
            Some(Action::TurnRight) => self.turn_right = new_state,
            None => (),
        }
    }

    /// Takes in a raw key-down event.
    pub fn key_down(&mut self, code: &str, is_repeat: bool)
        ensures
            *final(self) == old(self).spec_key_down(code@, is_repeat),
    {
        if !is_repeat {
            self.set_state_from_str(code, KeyState::JustPressed);
        }
    }

    /// Takes in a raw key-up event.
    pub fn key_up(&mut self, code: &str)
        ensures
            *final(self) == old(self).spec_key_up(code@),
    {
        self.set_state_from_str(code, KeyState::JustReleased);
    }
}

/// A tick turns every state into a level, keeps whether the key is held, and
/// a second tick with no event in between changes nothing more.
pub proof fn lemma_update_settles(state: KeyState)
    ensures
        state.spec_update() == KeyState::Down || state.spec_update() == KeyState::Up,
        state.spec_update().spec_active() == state.spec_active(),
        state.spec_update().spec_update() == state.spec_update(),
{
}

/// The four raw key identifiers differ from each other, so each one is mapped
/// back to the action it belongs to.
pub proof fn lemma_codes_identify_actions(action: Action)
    ensures
        spec_action_for_code(action.spec_code()) == Some(action),
{
    reveal_strlit("KeyW");
    reveal_strlit("KeyS");
    reveal_strlit("KeyA");
    reveal_strlit("KeyD");
    assert("KeyW"@[3] == 'W');
    assert("KeyS"@[3] == 'S');
    assert("KeyA"@[3] == 'A');
    assert("KeyD"@[3] == 'D');
}

/// A fresh key-down on an action's key marks that action as just pressed,
/// whatever state it was in, and leaves every other action as it was.
pub proof fn lemma_key_down_presses(keys: KeyMap, action: Action, other: Action)
    ensures
        keys.spec_key_down(action.spec_code(), false).spec_state(action)
            == KeyState::JustPressed,
        other != action ==> keys.spec_key_down(action.spec_code(), false).spec_state(other)
            == keys.spec_state(other),
{
    lemma_codes_identify_actions(action);
}

/// A repeated key-down changes nothing, whatever the key.
pub proof fn lemma_repeat_is_ignored(keys: KeyMap, code: Seq<char>)
    ensures
        keys.spec_key_down(code, true) == keys,
{
}

/// A key-up on an action's key marks that action as just released, whatever
/// state it was in, and leaves every other action as it was.
pub proof fn lemma_key_up_releases(keys: KeyMap, action: Action, other: Action)
    ensures
        keys.spec_key_up(action.spec_code()).spec_state(action) == KeyState::JustReleased,
        other != action ==> keys.spec_key_up(action.spec_code()).spec_state(other)
            == keys.spec_state(other),
{
    lemma_codes_identify_actions(action);
}

/// A key that belongs to no action changes nothing, pressed or released.
pub proof fn lemma_unmapped_key_is_ignored(keys: KeyMap, code: Seq<char>, is_repeat: bool)
    requires
        forall|action: Action| code != #[trigger] action.spec_code(),
    ensures
        keys.spec_key_down(code, is_repeat) == keys,
        keys.spec_key_up(code) == keys,
{
    assert(code != Action::Forwards.spec_code());
    assert(code != Action::Backwards.spec_code());
    assert(code != Action::TurnLeft.spec_code());
    assert(code != Action::TurnRight.spec_code());
}

/// A tick advances each action by its own state alone.
pub proof fn lemma_update_is_per_action(keys: KeyMap, action: Action)
    ensures
        keys.spec_update().spec_state(action) == keys.spec_state(action).spec_update(),
{
}

} // verus!
