use vstd::prelude::*;

use crate::machine::KeyboardState;

verus! {

/// Keyboard characters of the sixteen keypad keys, in keypad order 0x0..0xF.
pub const KEYPAD: [char; 16] = [
    'x', '1', '2', '3', 'q', 'w', 'e', 'a', 's', 'd', 'z', 'c', '4', 'r', 'f', 'v',
];

/// How a key event changes a key.
#[derive(Clone, Copy, Debug, PartialEq, Eq, Structural)]
pub enum KeyAction {
    Press,
    Release,
    Repeat,
}

/// The keypad key that character `c` stands for, if any.
pub fn keypad_index(c: char) -> (r: Option<u8>)
    ensures
        r matches Some(k) ==> k < 16 && KEYPAD@[k as int] == c,
        r is None ==> forall|k: int| 0 <= k < 16 ==> #[trigger] KEYPAD@[k] != c,
{
    let keys = KEYPAD;
    let mut i: usize = 0;
    while i < 16
        invariant
            i <= 16,
            keys == KEYPAD,
            forall|k: int| 0 <= k < i ==> #[trigger] KEYPAD@[k] != c,
        decreases 16 - i,
    {
        if keys[i] == c {
            return Some(i as u8);
        }
        i += 1;
    }
    None
}

impl KeyboardState {
    /// Starts a new cycle: no key counts as freshly pressed; held keys stay.
    pub fn clear_pressed(&mut self)
        ensures
            final(self).keys_pressed == old(self).keys_pressed,
            final(self).pressed_key is None,
    {
        self.pressed_key = None;
    }

    /// Records one event on keypad key `key`: a press holds it and marks it
    /// freshly pressed, a repeat holds it, a release lets it go.
    pub fn record(&mut self, key: u8, action: KeyAction)
        requires
            key < 16,
        ensures
            final(self).keys_pressed@ == old(self).keys_pressed@.update(
                key as int,
                action != KeyAction::Release,
            ),
            final(self).pressed_key == if action == KeyAction::Press {
                Some(key)
            } else {
                old(self).pressed_key
            },
    {
        match action {
            KeyAction::Press => {
                self.keys_pressed[key as usize] = true;
                self.pressed_key = Some(key);
            },
            KeyAction::Release => {
                self.keys_pressed[key as usize] = false;
            },
            KeyAction::Repeat => {
                self.keys_pressed[key as usize] = true;
            },
        }
    }
}

} // verus!
