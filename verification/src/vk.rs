//! Virtual key codes of Windows.

use vstd::prelude::*;

verus! {

/// Key Backspace.
pub const VK_BACK: u32 = 0x08;

pub const VK_TAB: u32 = 0x09;

pub const VK_RETURN: u32 = 0x0D;

pub const VK_ESCAPE: u32 = 0x1B;

pub const VK_SPACE: u32 = 0x20;

/// Key Page Up.
pub const VK_PRIOR: u32 = 0x21;

/// Key Page Down.
pub const VK_NEXT: u32 = 0x22;

pub const VK_END: u32 = 0x23;

pub const VK_HOME: u32 = 0x24;

pub const VK_INSERT: u32 = 0x2D;

pub const VK_DELETE: u32 = 0x2E;

pub const VK_NUMPAD0: u32 = 0x60;

pub const VK_NUMPAD1: u32 = 0x61;

pub const VK_NUMPAD2: u32 = 0x62;

pub const VK_NUMPAD3: u32 = 0x63;

pub const VK_NUMPAD4: u32 = 0x64;

pub const VK_NUMPAD5: u32 = 0x65;

pub const VK_NUMPAD6: u32 = 0x66;

pub const VK_NUMPAD7: u32 = 0x67;

pub const VK_NUMPAD8: u32 = 0x68;

pub const VK_NUMPAD9: u32 = 0x69;

pub const VK_MULTIPLY: u32 = 0x6A;

pub const VK_ADD: u32 = 0x6B;

pub const VK_SUBTRACT: u32 = 0x6D;

pub const VK_DECIMAL: u32 = 0x6E;

pub const VK_DIVIDE: u32 = 0x6F;

pub const VK_F1: u32 = 0x70;

pub const VK_F2: u32 = 0x71;

pub const VK_F3: u32 = 0x72;

pub const VK_F4: u32 = 0x73;

pub const VK_F5: u32 = 0x74;

pub const VK_F6: u32 = 0x75;

pub const VK_F7: u32 = 0x76;

pub const VK_F8: u32 = 0x77;

pub const VK_F9: u32 = 0x78;

pub const VK_F10: u32 = 0x79;

pub const VK_F11: u32 = 0x7A;

pub const VK_F12: u32 = 0x7B;

pub const VK_SHIFT: u32 = 0x10;

pub const VK_CONTROL: u32 = 0x11;

/// Key Alt.
pub const VK_MENU: u32 = 0x12;

pub const VK_CAPITAL: u32 = 0x14;

pub const VK_LWIN: u32 = 0x5B;

pub const VK_RWIN: u32 = 0x5C;

pub const VK_APPS: u32 = 0x5D;

/// Key `;:`.
pub const VK_OEM_1: u32 = 0xBA;

/// Key `=+`.
pub const VK_OEM_PLUS: u32 = 0xBB;

/// Key `,<`.
pub const VK_OEM_COMMA: u32 = 0xBC;

/// Key `-_`.
pub const VK_OEM_MINUS: u32 = 0xBD;

/// Key `.>`.
pub const VK_OEM_PERIOD: u32 = 0xBE;

/// Key `/?`.
pub const VK_OEM_2: u32 = 0xBF;

/// Key `` `~ ``.
pub const VK_OEM_3: u32 = 0xC0;

/// Key `[{`.
pub const VK_OEM_4: u32 = 0xDB;

/// Key `\|`.
pub const VK_OEM_5: u32 = 0xDC;

/// Key `]}`.
pub const VK_OEM_6: u32 = 0xDD;

/// Key `'"`.
pub const VK_OEM_7: u32 = 0xDE;

} // verus!
