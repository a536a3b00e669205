//! Keyboard input and the movement intent that it steers.

use vstd::prelude::*;

verus! {

/// Horizontal distance that the player's ship covers in one update while a
/// direction is held.
pub const PLAYER_SPEED: i64 = 10;

/// The keys that the game tells apart.
#[derive(Clone, Copy, Debug, PartialEq, Eq, Structural)]
pub enum Key {
    Left,
    Right,
    Space,
    /// Any other key.
    Other,
}

/// A key going down or coming up.
#[derive(Clone, Copy, Debug, PartialEq, Eq, Structural)]
pub struct KeyEvent {
    pub key: Key,
    /// `true` when the key was pressed or repeats, `false` when it was released.
    pub is_down: bool,
}

/// The direction in which the player currently wants to move.
#[derive(Clone, Copy, Debug, PartialEq, Eq, Structural)]
pub enum Movement {
    Idle,
    Left,
    Right,
}

impl Movement {
    /// The intent after a key event. Pressing Left or Right sets that
    /// direction, whatever was held before. Releasing a direction returns to
    /// idle only if it is the direction currently held, so that a late release
    /// of one key does not cancel a newer press of the other. No other key
    /// changes the intent.
    pub open spec fn after(self, event: KeyEvent) -> Movement {
        match event.key {
            Key::Left => if event.is_down {
                Movement::Left
            } else if self == Movement::Left {
                Movement::Idle
            } else {
                self
            },
            Key::Right => if event.is_down {
                Movement::Right
            } else if self == Movement::Right {
                Movement::Idle
            } else {
                self
            },
            _ => self,
        }
    }

    /// The horizontal displacement of the player's ship in one update.
    pub open spec fn drift(self) -> int {
        match self {
            Movement::Idle => 0,
            Movement::Left => -PLAYER_SPEED,
            Movement::Right => PLAYER_SPEED as int,
        }
    }

    /// Applies a key event to the intent.
    pub fn on_key(self, event: KeyEvent) -> (next: Movement)
        ensures
            next == self.after(event),
    {
        match event.key {
            Key::Left => {
                if event.is_down {
                    Movement::Left
                } else if self == Movement::Left {
                    Movement::Idle
                } else {
                    self
                }
            },
            Key::Right => {
                if event.is_down {
                    Movement::Right
                } else if self == Movement::Right {
                    Movement::Idle
                } else {
                    self
                }
            },
            _ => self,
        }
    }
}

/// The event of `key` going down.
pub open spec fn pressed(key: Key) -> KeyEvent {
    KeyEvent { key, is_down: true }
}

/// The event of `key` coming up.
pub open spec fn released(key: Key) -> KeyEvent {
    KeyEvent { key, is_down: false }
}

/// Pressing a direction and then releasing it ends in idle, whatever was held
/// before.
pub proof fn lemma_press_then_release_is_idle(start: Movement)
    ensures
        start.after(pressed(Key::Left)).after(released(Key::Left)) == Movement::Idle,
        start.after(pressed(Key::Right)).after(released(Key::Right)) == Movement::Idle,
{
}

/// Pressing one direction and then the other, without a release in between,
/// ends in the direction pressed last.
pub proof fn lemma_last_press_wins(start: Movement)
    ensures
        start.after(pressed(Key::Left)).after(pressed(Key::Right)) == Movement::Right,
        start.after(pressed(Key::Right)).after(pressed(Key::Left)) == Movement::Left,
{
}

/// Releasing a direction that is not the one held changes nothing.
pub proof fn lemma_stale_release_is_ignored(held: Movement)
    ensures
        held != Movement::Left ==> held.after(released(Key::Left)) == held,
        held != Movement::Right ==> held.after(released(Key::Right)) == held,
{
}

/// Space and every key that the game does not know leave the intent alone.
pub proof fn lemma_other_keys_keep_intent(held: Movement, is_down: bool)
    ensures
        held.after(KeyEvent { key: Key::Space, is_down }) == held,
        held.after(KeyEvent { key: Key::Other, is_down }) == held,
{
}

} // verus!
