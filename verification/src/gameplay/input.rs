//! Input: how long each key has been held, and what that means to the
//! player. Which keys of which device are meant is up to the caller.

use vstd::prelude::*;

verus! {

/// Milliseconds by which the key clocks move in a tick.
pub const KEY_TICK: u128 = 16;

/// Idle time of a key that has not been touched yet.
pub const KEY_IDLE: u128 = 200;

/// Hold time below which a key counts as just pressed.
pub const KEY_FRESH: u128 = 50;

/// Whether each of the six keys is down.
#[derive(Clone, Copy, Debug, PartialEq, Eq, Structural)]
pub struct KeyStates {
    pub up: bool,
    pub down: bool,
    pub left: bool,
    pub right: bool,
    pub attack: bool,
    pub switch: bool,
}

/// The clocks of one key.
#[derive(Clone, Copy, Debug, PartialEq, Eq, Structural)]
pub struct Button {
    /// Milliseconds for which the key has been down without a break.
    pub hold_time: u128,
    /// Milliseconds since the key last went down.
    pub idle_time: u128,
}

/// A clock after `by` more milliseconds; it stops at the end of its range.
pub open spec fn wound(clock: u128, by: u128) -> u128 {
    if clock + by <= u128::MAX {
        (clock + by) as u128
    } else {
        u128::MAX
    }
}

impl Button {
    pub fn new() -> (button: Button)
        ensures
            button == (Button { hold_time: 0, idle_time: KEY_IDLE }),
    {
        Button { idle_time: KEY_IDLE, hold_time: 0 }
    }

    /// The button one tick later, the key being down or not.
    pub open spec fn updated(self, down: bool) -> Button {
        if down {
            Button {
                hold_time: wound(self.hold_time, KEY_TICK),
                idle_time: if self.hold_time == 0 {
                    0
                } else {
                    wound(self.idle_time, KEY_TICK)
                },
            }
        } else {
            Button { hold_time: 0, idle_time: wound(self.idle_time, KEY_TICK) }
        }
    }

    /// Lets one tick pass.
    pub fn update(&mut self, down: bool)
        ensures
            *final(self) == old(self).updated(down),
    {
        self.idle_time = self.idle_time.saturating_add(KEY_TICK);
        if down {
            if self.hold_time == 0 {
                self.idle_time = 0;
            }
            self.hold_time = self.hold_time.saturating_add(KEY_TICK);
        } else {
            self.hold_time = 0;
        }
    }

    /// Makes the key count as untouched.
    pub fn consume(&mut self)
        ensures
            *final(self) == (Button { idle_time: KEY_IDLE, ..*old(self) }),
    {
        self.idle_time = KEY_IDLE;
    }

    /// Whether the key is down.
    pub open spec fn held(self) -> bool {
        self.hold_time > 0
    }

    /// Whether the key went down in this tick or shortly before.
    pub open spec fn pressed(self) -> bool {
        self.hold_time < KEY_FRESH && self.idle_time == 0
    }
}

/// The six keys a player uses.
#[derive(Clone, Copy, Debug, PartialEq, Eq, Structural)]
pub struct Keyboard {
    pub up_key: Button,
    pub down_key: Button,
    pub left_key: Button,
    pub right_key: Button,
    pub attack_key: Button,
    pub switch_key: Button,
}

impl Keyboard {
    /// A keyboard none of whose keys has been touched.
    pub open spec fn untouched() -> Keyboard {
        Keyboard {
            up_key: Button { hold_time: 0, idle_time: KEY_IDLE },
            down_key: Button { hold_time: 0, idle_time: KEY_IDLE },
            left_key: Button { hold_time: 0, idle_time: KEY_IDLE },
            right_key: Button { hold_time: 0, idle_time: KEY_IDLE },
            attack_key: Button { hold_time: 0, idle_time: KEY_IDLE },
            switch_key: Button { hold_time: 0, idle_time: KEY_IDLE },
        }
    }

    pub fn new() -> (keyboard: Keyboard)
        ensures
            keyboard == Keyboard::untouched(),
    {
        Keyboard {
            up_key: Button::new(),
            down_key: Button::new(),
            left_key: Button::new(),
            right_key: Button::new(),
            attack_key: Button::new(),
            switch_key: Button::new(),
        }
    }

    pub fn new_with_preset_keys() -> (keyboard: Keyboard)
        ensures
            keyboard == Keyboard::untouched(),
    {
        Keyboard::new()
    }

    /// The keyboard one tick later, the keys being as `keys` says.
    pub open spec fn updated(self, keys: KeyStates) -> Keyboard {
        Keyboard {
            up_key: self.up_key.updated(keys.up),
            down_key: self.down_key.updated(keys.down),
            left_key: self.left_key.updated(keys.left),
            right_key: self.right_key.updated(keys.right),
            attack_key: self.attack_key.updated(keys.attack),
            switch_key: self.switch_key.updated(keys.switch),
        }
    }

    /// Lets one tick pass.
    pub fn update(&mut self, keys: KeyStates)
        ensures
            *final(self) == old(self).updated(keys),
    {
        self.up_key.update(keys.up);
        self.down_key.update(keys.down);
        self.left_key.update(keys.left);
        self.right_key.update(keys.right);
        self.attack_key.update(keys.attack);
        self.switch_key.update(keys.switch);
    }

    pub fn up(&self) -> (held: bool)
        ensures
            held == self.up_key.held(),
    {
        self.up_key.hold_time > 0
    }

    pub fn down(&self) -> (held: bool)
        ensures
            held == self.down_key.held(),
    {
        self.down_key.hold_time > 0
    }

    pub fn left(&self) -> (held: bool)
        ensures
            held == self.left_key.held(),
    {
        self.left_key.hold_time > 0
    }

    pub fn right(&self) -> (held: bool)
        ensures
            held == self.right_key.held(),
    {
        self.right_key.hold_time > 0
    }

    /// Whether the attack key was just pressed.
    pub fn attack(&self) -> (pressed: bool)
        ensures
            pressed == self.attack_key.pressed(),
    {
        self.attack_key.hold_time < KEY_FRESH && self.attack_key.idle_time == 0
    }

    /// Milliseconds for which the attack key has been held.
    pub fn attack_holding(&self) -> (time: u128)
        ensures
            time == self.attack_key.hold_time,
    {
        self.attack_key.hold_time
    }

    /// Whether the switch key was just pressed.
    pub fn switch(&self) -> (pressed: bool)
        ensures
            pressed == self.switch_key.pressed(),
    {
        self.switch_key.hold_time < KEY_FRESH && self.switch_key.idle_time == 0
    }
}

} // verus!
