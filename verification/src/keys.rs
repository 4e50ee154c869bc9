//! The vocabulary of the keyboard: virtual-key codes, keystroke messages and
//! the flags of a synthetic keystroke, numbered as Windows numbers them.

use vstd::prelude::*;

verus! {

/// A virtual-key code.
pub type VirtualKey = u16;

/// Either Alt key, where the side is not told apart.
pub const VK_MENU: VirtualKey = 0x12;

/// The left Windows key.
pub const VK_LWIN: VirtualKey = 0x5B;

/// The right Windows key.
pub const VK_RWIN: VirtualKey = 0x5C;

/// The left Alt key.
pub const VK_LMENU: VirtualKey = 0xA4;

/// The right Alt key.
pub const VK_RMENU: VirtualKey = 0xA5;

/// A code that no key has. Windows takes a keystroke of it as part of a hotkey
/// and does nothing else with it.
pub const VK_NONE: VirtualKey = 0xFF;

/// The message for a key that went down.
pub const WM_KEYDOWN: u32 = 0x0100;

/// The message for a key that went up.
pub const WM_KEYUP: u32 = 0x0101;

/// The message for a key that went down while Alt was held.
pub const WM_SYSKEYDOWN: u32 = 0x0104;

/// The message for a key that went up while Alt was held.
pub const WM_SYSKEYUP: u32 = 0x0105;

/// The hook code under which a keyboard hook is handed an event to look at.
pub const HC_ACTION: i32 = 0;

/// The flag of a synthetic keystroke that releases the key.
pub const KEYEVENTF_KEYUP: u32 = 0x0002;

} // verus!
