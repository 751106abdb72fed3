//! The named coded-key table.
//!
//! High-range codes count down from `0xFFFF` in a fixed order: function
//! keys, then navigation keys, then mouse buttons and wheel events. The
//! low range is the ASCII control plane, `0x00..=0x1F` and `0x7F`, in
//! which several CTRL combinations deliberately share one code; every
//! such clash is marked beside the constant. Wrap a code in
//! [`crate::keyboard::Key::Key`] to obtain the key value it names.

use vstd::prelude::*;

verus! {

pub const F1: u16 = 0xFFFF - 0;

pub const F2: u16 = 0xFFFF - 1;

pub const F3: u16 = 0xFFFF - 2;

pub const F4: u16 = 0xFFFF - 3;

pub const F5: u16 = 0xFFFF - 4;

pub const F6: u16 = 0xFFFF - 5;

pub const F7: u16 = 0xFFFF - 6;

pub const F8: u16 = 0xFFFF - 7;

pub const F9: u16 = 0xFFFF - 8;

pub const F10: u16 = 0xFFFF - 9;

pub const F11: u16 = 0xFFFF - 10;

pub const F12: u16 = 0xFFFF - 11;

pub const INSERT: u16 = 0xFFFF - 12;

pub const DELETE: u16 = 0xFFFF - 13;

pub const HOME: u16 = 0xFFFF - 14;

pub const END: u16 = 0xFFFF - 15;

pub const PGUP: u16 = 0xFFFF - 16;

pub const PGDN: u16 = 0xFFFF - 17;

pub const ARROW_UP: u16 = 0xFFFF - 18;

pub const ARROW_DOWN: u16 = 0xFFFF - 19;

pub const ARROW_LEFT: u16 = 0xFFFF - 20;

pub const ARROW_RIGHT: u16 = 0xFFFF - 21;

pub const MOUSE_LEFT: u16 = 0xFFFF - 22;

pub const MOUSE_RIGHT: u16 = 0xFFFF - 23;

pub const MOUSE_MIDDLE: u16 = 0xFFFF - 24;

pub const MOUSE_RELEASE: u16 = 0xFFFF - 25;

pub const MOUSE_WHEEL_UP: u16 = 0xFFFF - 26;

pub const MOUSE_WHEEL_DOWN: u16 = 0xFFFF - 27;

pub const CTRL_TILDE: u16 = 0x00;

/// Clash with `CTRL_TILDE`.
pub const CTRL_2: u16 = 0x00;

pub const CTRL_A: u16 = 0x01;

pub const CTRL_B: u16 = 0x02;

pub const CTRL_C: u16 = 0x03;

pub const CTRL_D: u16 = 0x04;

pub const CTRL_E: u16 = 0x05;

pub const CTRL_F: u16 = 0x06;

pub const CTRL_G: u16 = 0x07;

pub const BACKSPACE: u16 = 0x08;

/// Clash with `BACKSPACE`.
pub const CTRL_H: u16 = 0x08;

pub const TAB: u16 = 0x09;

/// Clash with `TAB`.
pub const CTRL_I: u16 = 0x09;

pub const CTRL_J: u16 = 0x0A;

pub const CTRL_K: u16 = 0x0B;

pub const CTRL_L: u16 = 0x0C;

pub const ENTER: u16 = 0x0D;

/// Clash with `ENTER`.
pub const CTRL_M: u16 = 0x0D;

pub const CTRL_N: u16 = 0x0E;

pub const CTRL_O: u16 = 0x0F;

pub const CTRL_P: u16 = 0x10;

pub const CTRL_Q: u16 = 0x11;

pub const CTRL_R: u16 = 0x12;

pub const CTRL_S: u16 = 0x13;

pub const CTRL_T: u16 = 0x14;

pub const CTRL_U: u16 = 0x15;

pub const CTRL_V: u16 = 0x16;

pub const CTRL_W: u16 = 0x17;

pub const CTRL_X: u16 = 0x18;

pub const CTRL_Y: u16 = 0x19;

pub const CTRL_Z: u16 = 0x1A;

pub const ESC: u16 = 0x1B;

/// Clash with `ESC`.
pub const CTRL_LSQ_BRACKET: u16 = 0x1B;

/// Clash with `ESC`.
pub const CTRL_3: u16 = 0x1B;

pub const CTRL_4: u16 = 0x1C;

/// Clash with `CTRL_4`.
pub const CTRL_BACKSLASH: u16 = 0x1C;

pub const CTRL_5: u16 = 0x1D;

/// Clash with `CTRL_5`.
pub const CTRL_RSQ_BRACKET: u16 = 0x1D;

pub const CTRL_6: u16 = 0x1E;

pub const CTRL_7: u16 = 0x1F;

/// Clash with `CTRL_7`.
pub const CTRL_SLASH: u16 = 0x1F;

/// Clash with `CTRL_7`.
pub const CTRL_UNDERSCORE: u16 = 0x1F;

pub const SPACE: u16 = 0x20;

pub const BACKSPACE2: u16 = 0x7F;

/// Clash with `BACKSPACE2`.
pub const CTRL_8: u16 = 0x7F;

} // verus!
