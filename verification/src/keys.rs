//! Standard key codes (PC scancodes, set 1) used by the input backends.

use vstd::prelude::*;

verus! {

/// Escape key.
pub const ESCAPE: u16 = 0x01;

/// F1 key.
pub const F1: u16 = 0x3B;

/// F2 key.
pub const F2: u16 = 0x3C;

/// F3 key.
pub const F3: u16 = 0x3D;

/// F4 key.
pub const F4: u16 = 0x3E;

/// F5 key.
pub const F5: u16 = 0x3F;

/// F6 key.
pub const F6: u16 = 0x40;

/// F7 key.
pub const F7: u16 = 0x41;

/// F8 key.
pub const F8: u16 = 0x42;

/// F9 key.
pub const F9: u16 = 0x43;

/// F10 key.
pub const F10: u16 = 0x44;

/// F11 key.
pub const F11: u16 = 0x57;

/// F12 key.
pub const F12: u16 = 0x58;

/// Number row 1.
pub const KEY_1: u16 = 0x02;

/// Number row 2.
pub const KEY_2: u16 = 0x03;

/// Number row 3.
pub const KEY_3: u16 = 0x04;

/// Number row 4.
pub const KEY_4: u16 = 0x05;

/// Number row 5.
pub const KEY_5: u16 = 0x06;

/// Number row 6.
pub const KEY_6: u16 = 0x07;

/// Number row 7.
pub const KEY_7: u16 = 0x08;

/// Number row 8.
pub const KEY_8: u16 = 0x09;

/// Number row 9.
pub const KEY_9: u16 = 0x0A;

/// Number row 0.
pub const KEY_0: u16 = 0x0B;

/// Minus key.
pub const MINUS: u16 = 0x0C;

/// Equals key.
pub const EQUALS: u16 = 0x0D;

/// Backspace key.
pub const BACKSPACE: u16 = 0x0E;

/// Tab key.
pub const TAB: u16 = 0x0F;

/// Q key.
pub const Q: u16 = 0x10;

/// W key.
pub const W: u16 = 0x11;

/// E key.
pub const E: u16 = 0x12;

/// R key.
pub const R: u16 = 0x13;

/// T key.
pub const T: u16 = 0x14;

/// Y key.
pub const Y: u16 = 0x15;

/// U key.
pub const U: u16 = 0x16;

/// I key.
pub const I: u16 = 0x17;

/// O key.
pub const O: u16 = 0x18;

/// P key.
pub const P: u16 = 0x19;

/// Left bracket key.
pub const LEFT_BRACKET: u16 = 0x1A;

/// Right bracket key.
pub const RIGHT_BRACKET: u16 = 0x1B;

/// Enter key.
pub const ENTER: u16 = 0x1C;

/// Caps lock key.
pub const CAPS_LOCK: u16 = 0x3A;

/// A key.
pub const A: u16 = 0x1E;

/// S key.
pub const S: u16 = 0x1F;

/// D key.
pub const D: u16 = 0x20;

/// F key.
pub const F: u16 = 0x21;

/// G key.
pub const G: u16 = 0x22;

/// H key.
pub const H: u16 = 0x23;

/// J key.
pub const J: u16 = 0x24;

/// K key.
pub const K: u16 = 0x25;

/// L key.
pub const L: u16 = 0x26;

/// Semicolon key.
pub const SEMICOLON: u16 = 0x27;

/// Apostrophe key.
pub const APOSTROPHE: u16 = 0x28;

/// Grave key.
pub const GRAVE: u16 = 0x29;

/// Left shift key.
pub const LEFT_SHIFT: u16 = 0x2A;

/// Backslash key.
pub const BACKSLASH: u16 = 0x2B;

/// Z key.
pub const Z: u16 = 0x2C;

/// X key.
pub const X: u16 = 0x2D;

/// C key.
pub const C: u16 = 0x2E;

/// V key.
pub const V: u16 = 0x2F;

/// B key.
pub const B: u16 = 0x30;

/// N key.
pub const N: u16 = 0x31;

/// M key.
pub const M: u16 = 0x32;

/// Comma key.
pub const COMMA: u16 = 0x33;

/// Period key.
pub const PERIOD: u16 = 0x34;

/// Slash key.
pub const SLASH: u16 = 0x35;

/// Right shift key.
pub const RIGHT_SHIFT: u16 = 0x36;

/// Left control key.
pub const LEFT_CTRL: u16 = 0x1D;

/// Left alt key.
pub const LEFT_ALT: u16 = 0x38;

/// Space key.
pub const SPACE: u16 = 0x39;

/// Right alt key (extended).
pub const RIGHT_ALT: u16 = 0xE038;

/// Right control key (extended).
pub const RIGHT_CTRL: u16 = 0xE01D;

/// Insert key.
pub const INSERT: u16 = 0xE052;

/// Delete key.
pub const DELETE: u16 = 0xE053;

/// Home key.
pub const HOME: u16 = 0xE047;

/// End key.
pub const END: u16 = 0xE04F;

/// Page up key.
pub const PAGE_UP: u16 = 0xE049;

/// Page down key.
pub const PAGE_DOWN: u16 = 0xE051;

/// Up arrow key.
pub const UP: u16 = 0xE048;

/// Down arrow key.
pub const DOWN: u16 = 0xE050;

/// Left arrow key.
pub const LEFT: u16 = 0xE04B;

/// Right arrow key.
pub const RIGHT: u16 = 0xE04D;

/// Num lock key.
pub const NUM_LOCK: u16 = 0x45;

/// Keypad divide key.
pub const KP_DIVIDE: u16 = 0xE035;

/// Keypad multiply key.
pub const KP_MULTIPLY: u16 = 0x37;

/// Keypad subtract key.
pub const KP_SUBTRACT: u16 = 0x4A;

/// Keypad add key.
pub const KP_ADD: u16 = 0x4E;

/// Keypad enter key.
pub const KP_ENTER: u16 = 0xE01C;

/// Keypad decimal key.
pub const KP_DECIMAL: u16 = 0x53;

/// Keypad 0.
pub const KP_0: u16 = 0x52;

/// Keypad 1.
pub const KP_1: u16 = 0x4F;

/// Keypad 2.
pub const KP_2: u16 = 0x50;

/// Keypad 3.
pub const KP_3: u16 = 0x51;

/// Keypad 4.
pub const KP_4: u16 = 0x4B;

/// Keypad 5.
pub const KP_5: u16 = 0x4C;

/// Keypad 6.
pub const KP_6: u16 = 0x4D;

/// Keypad 7.
pub const KP_7: u16 = 0x47;

/// Keypad 8.
pub const KP_8: u16 = 0x48;

/// Keypad 9.
pub const KP_9: u16 = 0x49;

} // verus!
