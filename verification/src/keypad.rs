//! The keypad: sixteen keys with the logical numbers 0 to 15, each found
//! under one character of the keyboard.
//!
//! The keyboard block `1234 / qwer / asdf / zxcv` stands for the pad
//!
//! ```text
//! 1 2 3 C
//! 4 5 6 D
//! 7 8 9 E
//! A 0 B F
//! ```
//!
//! Reading the keyboard is the driver's work. This module only says which
//! key an observed character is.

use vstd::prelude::*;

verus! {

/// The characters of the keypad, row by row as they lie on the keyboard.
pub const KEY_SET: [char; 16] = [
    '1', '2', '3', '4',
    'q', 'w', 'e', 'r',
    'a', 's', 'd', 'f',
    'z', 'x', 'c', 'v',
];

/// The logical number of the key at each place of `KEY_SET`.
pub const KEY_IDS: [u8; 16] = [
    0x1, 0x2, 0x3, 0xC,
    0x4, 0x5, 0x6, 0xD,
    0x7, 0x8, 0x9, 0xE,
    0xA, 0x0, 0xB, 0xF,
];

/// The character mapping of the keypad. It holds no key state: which key is
/// down is whatever the driver observed last.
pub struct Keypad {
    keys: [char; 16],
}

/// The logical key under a character, if it is one of the keypad's.
pub open spec fn key_id(c: char) -> Option<u8> {
    if c == 'x' {
        Some(0x0u8)
    } else if c == '1' {
        Some(0x1u8)
    } else if c == '2' {
        Some(0x2u8)
    } else if c == '3' {
        Some(0x3u8)
    } else if c == 'q' {
        Some(0x4u8)
    } else if c == 'w' {
        Some(0x5u8)
    } else if c == 'e' {
        Some(0x6u8)
    } else if c == 'a' {
        Some(0x7u8)
    } else if c == 's' {
        Some(0x8u8)
    } else if c == 'd' {
        Some(0x9u8)
    } else if c == 'z' {
        Some(0xAu8)
    } else if c == 'c' {
        Some(0xBu8)
    } else if c == '4' {
        Some(0xCu8)
    } else if c == 'r' {
        Some(0xDu8)
    } else if c == 'f' {
        Some(0xEu8)
    } else if c == 'v' {
        Some(0xFu8)
    } else {
        None
    }
}

/// The logical key that an observation of the keyboard shows: the key under
/// the observed character, and none where no plain character was observed or
/// the character is not one of the keypad's.
pub open spec fn key_observed(event: Option<char>) -> Option<u8> {
    match event {
        Some(c) => key_id(c),
        None => None,
    }
}

/// Every logical key has a character: the mapping from the sixteen keys to
/// the keyboard is total.
pub proof fn lemma_every_key_has_a_character(k: u8)
    requires
        k < 16,
    ensures
        exists|p: int| 0 <= p < 16 && key_id(#[trigger] KEY_SET[p]) == Some(k),
{
    let p: int = if k == 0 {
        13
    } else if k <= 3 {
        k - 1
    } else if k <= 6 {
        k as int
    } else if k <= 9 {
        k + 1
    } else if k == 0xA {
        12
    } else if k == 0xB {
        14
    } else if k == 0xC {
        3
    } else if k == 0xD {
        7
    } else if k == 0xE {
        11
    } else {
        15
    };
    assert(key_id(KEY_SET[p]) == Some(k));
}

/// The key under the character at each place of `KEY_SET` is the one that
/// `KEY_IDS` holds at that place, every key's number is below 16, and no two
/// characters share a key.
pub proof fn lemma_key_mapping_one_to_one()
    ensures
        forall|p: int| 0 <= p < 16 ==> key_id(#[trigger] KEY_SET[p]) == Some(KEY_IDS[p]),
        forall|c: char| #[trigger] key_id(c) matches Some(k) ==> k < 16,
        forall|c: char, d: char|
            #![trigger key_id(c), key_id(d)]
            key_id(c) is Some && key_id(c) == key_id(d) ==> c == d,
{
}

impl Keypad {
    #[verifier::type_invariant]
    spec fn well_formed(self) -> bool {
        self.keys@ == KEY_SET@
    }

    /// The keypad with the mapping of `KEY_SET`.
    pub fn new() -> (keypad: Keypad)
        ensures
            keypad.spec_keys() == KEY_SET@,
    {
        Keypad { keys: KEY_SET }
    }

    /// The characters of the keypad as a sequence.
    pub closed spec fn spec_keys(&self) -> Seq<char> {
        self.keys@
    }

    /// The characters of the keypad, row by row as they lie on the keyboard.
    pub fn get_keys(&self) -> (keys: [char; 16])
        ensures
            keys@ == KEY_SET@,
            keys@ == self.spec_keys(),
    {
        proof {
            use_type_invariant(self);
        }
        self.keys
    }

    /// The logical key that an observation of the keyboard shows. `event` is
    /// the plain character that the driver observed, or `None` where it
    /// observed anything else.
    pub fn get_key_pressed(&self, event: Option<char>) -> (key: Option<u8>)
        ensures
            key == key_observed(event),
    {
        proof {
            use_type_invariant(self);
        }
        match event {
            None => None,
            Some(c) => {
                let mut place: usize = 0;
                while place < 16
                    invariant
                        place <= 16,
                        event == Some(c),
                        self.keys@ == KEY_SET@,
                        forall|p: int| 0 <= p < place ==> KEY_SET[p] != c,
                    decreases 16 - place,
                {
                    if self.keys[place] == c {
                        proof {
                            lemma_key_mapping_one_to_one();
                        }
                        return Some(KEY_IDS[place]);
                    }
                    place = place + 1;
                }
                None
            },
        }
    }
}

impl Default for Keypad {
    /// The keypad with the mapping of `KEY_SET`.
    fn default() -> (keypad: Self)
        ensures
            keypad.spec_keys() == KEY_SET@,
    {
        Keypad::new()
    }
}

} // verus!
