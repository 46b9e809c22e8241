//! The sixteen keys of the keypad on a keyboard.
//!
//! ```text
//! keypad     keyboard
//! 1 2 3 C    1 2 3 4
//! 4 5 6 D    Q W E R
//! 7 8 9 E    A S D F
//! A 0 B F    Z X C V
//! ```

use vstd::prelude::*;

verus! {

/// A key of the keyboard: one of the sixteen that stand for the keypad, or
/// any other.
#[derive(PartialEq, Eq, Structural, Clone, Copy, Debug)]
pub enum Key {
    Key1,
    Key2,
    Key3,
    Key4,
    Q,
    W,
    E,
    R,
    A,
    S,
    D,
    F,
    Z,
    X,
    C,
    V,
    Other,
}

/// The keyboard key that stands for keypad key `keyval`.
pub open spec fn key_of(keyval: u8) -> Option<Key> {
    match keyval {
        0x1 => Some(Key::Key1),
        0x2 => Some(Key::Key2),
        0x3 => Some(Key::Key3),
        0xC => Some(Key::Key4),
        0x4 => Some(Key::Q),
        0x5 => Some(Key::W),
        0x6 => Some(Key::E),
        0xD => Some(Key::R),
        0x7 => Some(Key::A),
        0x8 => Some(Key::S),
        0x9 => Some(Key::D),
        0xE => Some(Key::F),
        0xA => Some(Key::Z),
        0x0 => Some(Key::X),
        0xB => Some(Key::C),
        0xF => Some(Key::V),
        _ => None,
    }
}

/// The keypad key that keyboard key `key` stands for: the one that
/// [`key_of`] maps to it.
pub open spec fn keyval_of(key: Key) -> Option<u8> {
    if exists|keyval: u8| key_of(keyval) == Some(key) {
        Some(choose|keyval: u8| key_of(keyval) == Some(key))
    } else {
        None
    }
}

/// The keyboard key for a keypad key; `None` for a value that is no keypad
/// key.
pub fn keyval_to_key(key: u8) -> (found: Option<Key>)
    ensures
        found == key_of(key),
        found is Some <==> key < 16,
{
    match key {
        0x1 => Some(Key::Key1),
        0x2 => Some(Key::Key2),
        0x3 => Some(Key::Key3),
        0xC => Some(Key::Key4),
        0x4 => Some(Key::Q),
        0x5 => Some(Key::W),
        0x6 => Some(Key::E),
        0xD => Some(Key::R),
        0x7 => Some(Key::A),
        0x8 => Some(Key::S),
        0x9 => Some(Key::D),
        0xE => Some(Key::F),
        0xA => Some(Key::Z),
        0x0 => Some(Key::X),
        0xB => Some(Key::C),
        0xF => Some(Key::V),
        _ => None,
    }
}

/// The keypad key for a keyboard key; `None` for a key that stands for
/// none.
pub fn key_to_keyval(key: &Key) -> (found: Option<u8>)
    ensures
        found == keyval_of(*key),
        found matches Some(keyval) ==> keyval < 16 && key_of(keyval) == Some(*key),
        found is None <==> *key is Other,
{
    let found = match key {
        Key::Key1 => Some(0x1u8),
        Key::Key2 => Some(0x2u8),
        Key::Key3 => Some(0x3u8),
        Key::Key4 => Some(0xCu8),
        Key::Q => Some(0x4u8),
        Key::W => Some(0x5u8),
        Key::E => Some(0x6u8),
        Key::R => Some(0xDu8),
        Key::A => Some(0x7u8),
        Key::S => Some(0x8u8),
        Key::D => Some(0x9u8),
        Key::F => Some(0xEu8),
        Key::Z => Some(0xAu8),
        Key::X => Some(0x0u8),
        Key::C => Some(0xBu8),
        Key::V => Some(0xFu8),
        Key::Other => None,
    };
    proof {
        match found {
            Some(keyval) => {
                assert(key_of(keyval) == Some(*key));
                let chosen = choose|keyval: u8| key_of(keyval) == Some(*key);
                assert(key_of(chosen) == Some(*key));
                assert(chosen == keyval);
            },
            None => {
                assert(forall|keyval: u8| key_of(keyval) != Some(Key::Other));
            },
        }
    }
    found
}

/// The keypad key of the first of `keys` that stands for one: what a
/// keypad reports when it is asked for one released key and the keyboard
/// reports these.
pub fn first_keyval(keys: &[Key]) -> (found: Option<u8>)
    ensures
        match found {
            Some(keyval) => exists|i: int|
                0 <= i < keys@.len() && keyval_of(#[trigger] keys@[i]) == Some(keyval) && forall|
                    j: int,
                | 0 <= j < i ==> keys@[j] is Other,
            None => forall|i: int| 0 <= i < keys@.len() ==> keys@[i] is Other,
        },
{
    let mut i: usize = 0;
    while i < keys.len()
        invariant
            i <= keys@.len(),
            forall|j: int| 0 <= j < i ==> keys@[j] is Other,
        decreases keys@.len() - i,
    {
        match key_to_keyval(&keys[i]) {
            Some(keyval) => {
                assert(keyval_of(keys@[i as int]) == Some(keyval));
                return Some(keyval);
            },
            None => {},
        }
        i += 1;
    }
    None
}

/// Every keypad key has a keyboard key of its own: going to the keyboard
/// and back gives the keypad key again.
pub proof fn keypad_round_trip(keyval: u8)
    requires
        keyval < 16,
    ensures
        key_of(keyval) matches Some(key) && keyval_of(key) == Some(keyval),
{
    let key = key_of(keyval).unwrap();
    assert(key_of(keyval) == Some(key));
    let chosen = choose|other: u8| key_of(other) == Some(key);
    assert(key_of(chosen) == Some(key));
}

} // verus!
