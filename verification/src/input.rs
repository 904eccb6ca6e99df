//! Keyboard bookkeeping for the movable-square demo.
//!
//! The window system delivers key events; this module records which keys
//! are held and decides what they demand: a recolor when space is newly
//! pressed, and a movement direction exactly when its key is held and the
//! opposite key is not.  Applying the movement (a distance per frame) is
//! the caller's business.

use vstd::prelude::*;

verus! {

/// Whether a key is currently held down.
#[derive(Clone, Copy, Debug, PartialEq, Eq, Structural)]
pub enum KeyState {
    Pressed,
    Released,
}

impl Default for KeyState {
    /// A key starts out released.
    fn default() -> (r: KeyState)
        ensures
            r is Released,
    {
        KeyState::Released
    }
}

/// The keys the demo reads; anything else is ignored.
#[derive(Clone, Copy, Debug, PartialEq, Eq, Structural)]
pub enum KeyCode {
    W,
    A,
    S,
    D,
    Space,
    Other,
}

/// The held state of each key the demo reads.
#[derive(Clone, Copy, Debug, PartialEq, Eq, Structural)]
pub struct Keys {
    pub w: KeyState,
    pub a: KeyState,
    pub s: KeyState,
    pub d: KeyState,
    pub space: KeyState,
}

impl Default for Keys {
    /// All keys start out released.
    fn default() -> (r: Keys)
        ensures
            r.w is Released,
            r.a is Released,
            r.s is Released,
            r.d is Released,
            r.space is Released,
    {
        Keys {
            w: KeyState::Released,
            a: KeyState::Released,
            s: KeyState::Released,
            d: KeyState::Released,
            space: KeyState::Released,
        }
    }
}

/// The directions the held keys demand this frame.
#[derive(Clone, Copy, Debug, PartialEq, Eq, Structural)]
pub struct Movement {
    pub up: bool,
    pub down: bool,
    pub left: bool,
    pub right: bool,
}

impl Keys {
    /// Record a key event.  Returns whether the square changes to a random
    /// color: exactly when space goes from released to pressed.
    pub fn handle_keyboard_input(&mut self, key_code: KeyCode, state: KeyState) -> (recolor:
        bool)
        ensures
            recolor == (key_code is Space && state is Pressed && old(self).space is Released),
            *final(self) == (match key_code {
                KeyCode::W => Keys { w: state, ..*old(self) },
                KeyCode::A => Keys { a: state, ..*old(self) },
                KeyCode::S => Keys { s: state, ..*old(self) },
                KeyCode::D => Keys { d: state, ..*old(self) },
                KeyCode::Space => Keys { space: state, ..*old(self) },
                KeyCode::Other => *old(self),
            }),
    {
        match key_code {
            KeyCode::Space => {
                let recolor = state == KeyState::Pressed && self.space == KeyState::Released;
                self.space = state;
                recolor
            },
            KeyCode::W => {
                self.w = state;
                false
            },
            KeyCode::A => {
                self.a = state;
                false
            },
            KeyCode::S => {
                self.s = state;
                false
            },
            KeyCode::D => {
                self.d = state;
                false
            },
            KeyCode::Other => false,
        }
    }

    /// The movement the held keys demand: each direction moves exactly when
    /// its key is pressed and the opposite key is released.
    pub fn movement(&self) -> (m: Movement)
        ensures
            m.up == (self.w is Pressed && self.s is Released),
            m.down == (self.s is Pressed && self.w is Released),
            m.left == (self.a is Pressed && self.d is Released),
            m.right == (self.d is Pressed && self.a is Released),
    {
        Movement {
            up: self.w == KeyState::Pressed && self.s == KeyState::Released,
            down: self.s == KeyState::Pressed && self.w == KeyState::Released,
            left: self.a == KeyState::Pressed && self.d == KeyState::Released,
            right: self.d == KeyState::Pressed && self.a == KeyState::Released,
        }
    }
}

} // verus!
