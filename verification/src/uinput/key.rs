//! Key codes of the virtual keyboard.
use vstd::prelude::*;
use vstd::std_specs::convert::FromSpecImpl;

verus! {

/// The code of the escape key.
pub const KEY_ESC: u16 = 1;

/// The code of the second function key.
pub const KEY_F2: u16 = 60;

/// A key of the virtual keyboard, known by the code that a record carries
/// for it. Two keys are the same key exactly where their codes are equal.
#[derive(Clone, Copy, Debug, PartialEq, Eq, Structural)]
pub struct Key {
    pub code: u16,
}

impl Key {
    /// The escape key.
    pub fn esc() -> (key: Key)
        ensures
            key.code == KEY_ESC,
    {
        Key { code: KEY_ESC }
    }

    /// The second function key.
    pub fn f2() -> (key: Key)
        ensures
            key.code == KEY_F2,
    {
        Key { code: KEY_F2 }
    }

    /// The key with the code that the physical source reports, where a record
    /// can carry that code. No code ever stands for another.
    pub open spec fn spec_from_code(code: u32) -> Option<Key> {
        if code <= u16::MAX {
            Some(Key { code: code as u16 })
        } else {
            None
        }
    }

    /// The key for a code reported by the physical source: the key with that
    /// very code, or `None` for a code beyond what a record can carry.
    pub fn from_code(code: u32) -> (key: Option<Key>)
        ensures
            key == Key::spec_from_code(code),
    {
        if code <= 0xffff {
            Some(Key { code: code as u16 })
        } else {
            None
        }
    }
}

impl From<u8> for Key {
    fn from(code: u8) -> (key: Key) {
        Key { code: code as u16 }
    }
}

impl FromSpecImpl<u8> for Key {
    open spec fn obeys_from_spec() -> bool {
        true
    }

    open spec fn from_spec(code: u8) -> Key {
        Key { code: code as u16 }
    }
}

impl From<u16> for Key {
    fn from(code: u16) -> (key: Key) {
        Key { code }
    }
}

impl FromSpecImpl<u16> for Key {
    open spec fn obeys_from_spec() -> bool {
        true
    }

    open spec fn from_spec(code: u16) -> Key {
        Key { code }
    }
}

impl From<Key> for u16 {
    fn from(key: Key) -> (code: u16) {
        key.code
    }
}

impl FromSpecImpl<Key> for u16 {
    open spec fn obeys_from_spec() -> bool {
        true
    }

    open spec fn from_spec(key: Key) -> u16 {
        key.code
    }
}

} // verus!
