//! The key model: a closed identifier space for keyboard and mouse input,
//! with the derivation rules for control-key and function-key codes.

use vstd::prelude::*;

verus! {

/// A single keyboard or mouse input unit.
///
/// Two representations share the same integer namespace and never alias:
/// a decoded text scalar (`Char`), and a 16-bit coded key (`Key`) drawn
/// from the ASCII control plane (`0x00..=0x1F` and `0x7F`) or from the
/// high range counting down from `0xFFFF` (see the [`crate::key`] table).
/// The printable range `0x20..=0x7E` is reserved for character keys and
/// is never produced as a coded key by the derivation rules below.
#[derive(Clone, Copy, PartialEq, Eq, Hash, Debug)]
pub enum Key {
    Char(char),
    Key(u16),
}

/// The control-code a character maps to under CTRL, if any.
///
/// The table is exhaustive and deliberately many-to-one: several source
/// characters alias onto one control code, exactly as the named constants
/// in [`crate::key`] document.
pub open spec fn spec_control(ch: char) -> Option<Key> {
    let c = ch as u32;
    if c == '2' as u32 || c == '~' as u32 {
        Some(Key::Key(0x00))
    } else if 'a' as u32 <= c && c <= 'z' as u32 {
        Some(Key::Key((c - 'a' as u32 + 1) as u16))
    } else if 'A' as u32 <= c && c <= 'Z' as u32 {
        Some(Key::Key((c - 'A' as u32 + 1) as u16))
    } else if c == '3' as u32 || c == '[' as u32 {
        Some(Key::Key(0x1b))
    } else if c == '4' as u32 || c == '\\' as u32 {
        Some(Key::Key(0x1c))
    } else if c == '5' as u32 || c == ']' as u32 {
        Some(Key::Key(0x1d))
    } else if c == '6' as u32 {
        Some(Key::Key(0x1e))
    } else if c == '7' as u32 || c == '/' as u32 || c == '_' as u32 {
        Some(Key::Key(0x1f))
    } else if c == '8' as u32 {
        Some(Key::Key(0x7f))
    } else {
        None
    }
}

/// The coded key for function key `num`, if `num` names one.
///
/// Defined exactly for `1 <= num <= 12`. The code is `0xFFFF - num - 1`,
/// which sits one slot below the named `F{num}` constant of
/// [`crate::key`]; the discrepancy is long-standing observed behaviour
/// and is kept bit-for-bit.
pub open spec fn spec_funcion(num: u32) -> Option<Key> {
    if 1 <= num && num <= 12 {
        Some(Key::Key((0xFFFF - num - 1) as u16))
    } else {
        None
    }
}

impl Key {
    /// Maps a source character to its control-code key.
    ///
    /// Defined only for characters whose scalar value is at most `0xFF`
    /// and that appear in the control table; every other character has
    /// no control-key reading.
    pub fn control(ch: char) -> (r: Option<Key>)
        ensures
            r == spec_control(ch),
    {
        let c = ch as u32;
        if c > 0xFF {
            return None;
        }
        if c == '2' as u32 || c == '~' as u32 {
            Some(Key::Key(0x00))
        } else if 'a' as u32 <= c && c <= 'z' as u32 {
            Some(Key::Key((c - 'a' as u32 + 1) as u16))
        } else if 'A' as u32 <= c && c <= 'Z' as u32 {
            Some(Key::Key((c - 'A' as u32 + 1) as u16))
        } else if c == '3' as u32 || c == '[' as u32 {
            Some(Key::Key(0x1b))
        } else if c == '4' as u32 || c == '\\' as u32 {
            Some(Key::Key(0x1c))
        } else if c == '5' as u32 || c == ']' as u32 {
            Some(Key::Key(0x1d))
        } else if c == '6' as u32 {
            Some(Key::Key(0x1e))
        } else if c == '7' as u32 || c == '/' as u32 || c == '_' as u32 {
            Some(Key::Key(0x1f))
        } else if c == '8' as u32 {
            Some(Key::Key(0x7f))
        } else {
            None
        }
    }

    /// Derives the coded key for function key `num`, or `None` when `num`
    /// is outside `1..=12`.
    pub fn funcion(num: u32) -> (r: Option<Key>)
        ensures
            r == spec_funcion(num),
            r is Some <==> 1 <= num <= 12,
    {
        if 1 <= num && num <= 12 {
            Some(Key::Key((0xFFFF - num - 1) as u16))
        } else {
            None
        }
    }
}

/// The derivation rules stay out of the printable range `0x20..=0x7E`,
/// which is reserved for character keys: a control key's code lies in
/// the ASCII control plane (`0x00..=0x1F` or `0x7F`), and a function
/// key's code lies in the high range counting down from `0xFFFF`. A
/// derived coded key therefore never collides with a printable
/// character's position in the shared integer namespace.
pub proof fn lemma_derived_codes_avoid_printable_range(ch: char, num: u32)
    ensures
        spec_control(ch) matches Some(k) ==> k matches Key::Key(code) && (code <= 0x1F || code
            == 0x7F),
        spec_funcion(num) matches Some(k) ==> k matches Key::Key(code) && code >= 0xFFF2,
{
}

/// Letters derive their control code from their position in the alphabet:
/// `'a'` through `'z'` map to codes `1` through `26`, and an upper-case
/// letter maps to the same code as its lower-case form.
pub proof fn lemma_control_letters(lo: char, up: char)
    requires
        'a' as u32 <= lo as u32 <= 'z' as u32,
        up as u32 == lo as u32 - 0x20,
    ensures
        spec_control(lo) == Some(Key::Key((lo as u32 - 'a' as u32 + 1) as u16)),
        spec_control(up) == spec_control(lo),
{
}

} // verus!
