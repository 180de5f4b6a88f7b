//! Linux input-event codes used by the remapping rules.

use vstd::prelude::*;

verus! {

/// Event class of key state changes (`EV_KEY`).
pub const EV_KEY: u16 = 1;

pub const KEY_ESC: u16 = 1;
pub const KEY_LEFTCTRL: u16 = 29;
pub const KEY_A: u16 = 30;
pub const KEY_H: u16 = 35;
pub const KEY_J: u16 = 36;
pub const KEY_K: u16 = 37;
pub const KEY_L: u16 = 38;
pub const KEY_GRAVE: u16 = 41;
pub const KEY_B: u16 = 48;
pub const KEY_CAPSLOCK: u16 = 58;
/// The extra key of ISO layouts, next to the left shift.
pub const KEY_102ND: u16 = 86;
pub const KEY_UP: u16 = 103;
pub const KEY_LEFT: u16 = 105;
pub const KEY_RIGHT: u16 = 106;
pub const KEY_DOWN: u16 = 108;
pub const KEY_LEFTMETA: u16 = 125;
/// The function modifier.
pub const KEY_FN: u16 = 464;

/// Largest key code that the virtual output device announces.
pub const MAX_VIRTUAL_KEY: u16 = 247;

} // verus!
