//! The names that keys go by in a keybind, in upper case.

use vstd::prelude::*;
use crate::text::{ascii_upper, chars_of, same_text};
use crate::vk::{
    VK_ADD, VK_APPS, VK_BACK, VK_CAPITAL, VK_CONTROL, VK_DECIMAL, VK_DELETE, VK_DIVIDE,
    VK_END, VK_ESCAPE, VK_F1, VK_F10, VK_F11, VK_F12, VK_F2, VK_F3, VK_F4, VK_F5, VK_F6,
    VK_F7, VK_F8, VK_F9, VK_HOME, VK_INSERT, VK_LWIN, VK_MENU, VK_MULTIPLY, VK_NEXT,
    VK_NUMPAD0, VK_NUMPAD1, VK_NUMPAD2, VK_NUMPAD3, VK_NUMPAD4, VK_NUMPAD5, VK_NUMPAD6,
    VK_NUMPAD7, VK_NUMPAD8, VK_NUMPAD9, VK_OEM_1, VK_OEM_2, VK_OEM_3, VK_OEM_4, VK_OEM_5,
    VK_OEM_6, VK_OEM_7, VK_OEM_COMMA, VK_OEM_MINUS, VK_OEM_PERIOD, VK_OEM_PLUS, VK_PRIOR,
    VK_RETURN, VK_SHIFT, VK_SPACE, VK_SUBTRACT, VK_TAB,
};

verus! {

/// The bit of the control key in a modifier mask.
pub const MOD_CTRL: u32 = 1;

/// The bit of the alt key in a modifier mask.
pub const MOD_ALT: u32 = 2;

/// The bit of the shift key in a modifier mask.
pub const MOD_SHIFT: u32 = 4;

/// The bit of the Windows key in a modifier mask.
pub const MOD_WIN: u32 = 8;

/// What one part of a keybind stands for.
#[derive(Clone, Copy, Debug, PartialEq, Eq, Structural)]
pub enum KeyPart {
    /// A modifier: its bit in the mask, and the key that it is by itself.
    Modifier { mask: u32, key: u32 },
    /// An ordinary key, by its virtual key code.
    Key(u32),
    /// A name that no key goes by.
    Unknown,
}

/// The modifier keys, each with the spellings it goes by.
pub open spec fn modifier_key(name: Seq<char>) -> Option<(u32, u32)> {
    if name == "CTRL"@ || name == "CONTROL"@ || name == "CRTL"@ || name == "[CTRL]"@
        || name == "[CONTROL]"@ || name == "[CRTL]"@ {
        Some((MOD_CTRL, VK_CONTROL))
    } else if name == "ALT"@ || name == "[ALT]"@ {
        Some((MOD_ALT, VK_MENU))
    } else if name == "SHIFT"@ || name == "[SHIFT]"@ {
        Some((MOD_SHIFT, VK_SHIFT))
    } else if name == "WIN"@ || name == "META"@ || name == "WINDOWS"@ || name == "[WIN]"@
        || name == "[META]"@ || name == "[WINDOWS]"@ {
        Some((MOD_WIN, VK_LWIN))
    } else {
        None
    }
}

/// The function keys.
pub open spec fn function_key(name: Seq<char>) -> Option<u32> {
    if name == "F1"@ {
        Some(VK_F1)
    } else if name == "F2"@ {
        Some(VK_F2)
    } else if name == "F3"@ {
        Some(VK_F3)
    } else if name == "F4"@ {
        Some(VK_F4)
    } else if name == "F5"@ {
        Some(VK_F5)
    } else if name == "F6"@ {
        Some(VK_F6)
    } else if name == "F7"@ {
        Some(VK_F7)
    } else if name == "F8"@ {
        Some(VK_F8)
    } else if name == "F9"@ {
        Some(VK_F9)
    } else if name == "F10"@ {
        Some(VK_F10)
    } else if name == "F11"@ {
        Some(VK_F11)
    } else if name == "F12"@ {
        Some(VK_F12)
    } else {
        None
    }
}

/// Tab, space, enter and the keys that move or edit.
pub open spec fn editing_key(name: Seq<char>) -> Option<u32> {
    if name == "TAB"@ || name == "[TAB]"@ {
        Some(VK_TAB)
    } else if name == "CAPSLOCK"@ || name == "CAPS LOCK"@ || name == "[CAPSLOCK]"@
        || name == "[CAPS LOCK]"@ {
        Some(VK_CAPITAL)
    } else if name == "SPACE"@ || name == "SPACEBAR"@ || name == "[SPACE]"@ {
        Some(VK_SPACE)
    } else if name == "ENTER"@ || name == "RETURN"@ || name == "[ENTER]"@ || name == "[RETURN]"@ {
        Some(VK_RETURN)
    } else if name == "BACKSPACE"@ || name == "BACK"@ || name == "[BACKSPACE]"@ {
        Some(VK_BACK)
    } else if name == "ESC"@ || name == "ESCAPE"@ || name == "[ESC]"@ || name == "[ESCAPE]"@ {
        Some(VK_ESCAPE)
    } else if name == "INSERT"@ || name == "INS"@ || name == "[INSERT]"@ || name == "[INS]"@ {
        Some(VK_INSERT)
    } else if name == "DELETE"@ || name == "DEL"@ || name == "[DELETE]"@ || name == "[DEL]"@ {
        Some(VK_DELETE)
    } else if name == "HOME"@ || name == "[HOME]"@ {
        Some(VK_HOME)
    } else if name == "END"@ || name == "[END]"@ {
        Some(VK_END)
    } else if name == "PAGEUP"@ || name == "PAGE UP"@ || name == "PGUP"@ || name == "[PAGEUP]"@
        || name == "[PGUP]"@ {
        Some(VK_PRIOR)
    } else if name == "PAGEDOWN"@ || name == "PAGE DOWN"@ || name == "PGDN"@
        || name == "[PAGEDOWN]"@ || name == "[PGDN]"@ {
        Some(VK_NEXT)
    } else if name == "CONTEXTMENU"@ || name == "CONTEXT MENU"@ || name == "APPS"@
        || name == "[CONTEXTMENU]"@ || name == "[APPS]"@ {
        Some(VK_APPS)
    } else {
        None
    }
}

/// The keys of the numeric keypad.
pub open spec fn numpad_key(name: Seq<char>) -> Option<u32> {
    if name == "NUM0"@ || name == "NUMPAD0"@ || name == "[NUM0]"@ {
        Some(VK_NUMPAD0)
    } else if name == "NUM1"@ || name == "NUMPAD1"@ || name == "[NUM1]"@ {
        Some(VK_NUMPAD1)
    } else if name == "NUM2"@ || name == "NUMPAD2"@ || name == "[NUM2]"@ {
        Some(VK_NUMPAD2)
    } else if name == "NUM3"@ || name == "NUMPAD3"@ || name == "[NUM3]"@ {
        Some(VK_NUMPAD3)
    } else if name == "NUM4"@ || name == "NUMPAD4"@ || name == "[NUM4]"@ {
        Some(VK_NUMPAD4)
    } else if name == "NUM5"@ || name == "NUMPAD5"@ || name == "[NUM5]"@ {
        Some(VK_NUMPAD5)
    } else if name == "NUM6"@ || name == "NUMPAD6"@ || name == "[NUM6]"@ {
        Some(VK_NUMPAD6)
    } else if name == "NUM7"@ || name == "NUMPAD7"@ || name == "[NUM7]"@ {
        Some(VK_NUMPAD7)
    } else if name == "NUM8"@ || name == "NUMPAD8"@ || name == "[NUM8]"@ {
        Some(VK_NUMPAD8)
    } else if name == "NUM9"@ || name == "NUMPAD9"@ || name == "[NUM9]"@ {
        Some(VK_NUMPAD9)
    } else if name == "NUM*"@ || name == "NUMPAD*"@ || name == "[NUM*]"@ {
        Some(VK_MULTIPLY)
    } else if name == "NUM+"@ || name == "NUMPAD+"@ || name == "[NUM+]"@ {
        Some(VK_ADD)
    } else if name == "NUM-"@ || name == "NUMPAD-"@ || name == "[NUM-]"@ {
        Some(VK_SUBTRACT)
    } else if name == "NUM."@ || name == "NUMPAD."@ || name == "[NUM.]"@ {
        Some(VK_DECIMAL)
    } else if name == "NUM/"@ || name == "NUMPAD/"@ || name == "[NUM/]"@ {
        Some(VK_DIVIDE)
    } else {
        None
    }
}

/// The punctuation keys.
pub open spec fn symbol_key(name: Seq<char>) -> Option<u32> {
    if name == "="@ || name == "[=]"@ {
        Some(VK_OEM_PLUS)
    } else if name == "-"@ || name == "MINUS"@ || name == "[-]"@ || name == "[MINUS]"@ {
        Some(VK_OEM_MINUS)
    } else if name == ","@ || name == "[,]"@ {
        Some(VK_OEM_COMMA)
    } else if name == "."@ || name == "[.]"@ {
        Some(VK_OEM_PERIOD)
    } else if name == "/"@ || name == "[/]"@ {
        Some(VK_OEM_2)
    } else if name == ";"@ || name == "[;]"@ {
        Some(VK_OEM_1)
    } else if name == "'"@ || name == "['']"@ || name == "[']"@ {
        Some(VK_OEM_7)
    } else if name == "`"@ || name == "TILDE"@ || name == "[`]"@ || name == "[TILDE]"@ {
        Some(VK_OEM_3)
    } else if name == "\\"@ || name == "[\\]"@ {
        Some(VK_OEM_5)
    } else if name == "["@ || name == "[[]]"@ || name == "[["@ {
        Some(VK_OEM_4)
    } else if name == "]"@ || name == "[]]"@ || name == "]]"@ {
        Some(VK_OEM_6)
    } else {
        None
    }
}

/// The letter and digit keys, which go by a single ASCII character and have the
/// code of the upper-case character.
pub open spec fn character_key(name: Seq<char>) -> Option<u32> {
    if name.len() == 1 && ('A' <= name[0] <= 'Z' || 'a' <= name[0] <= 'z' || '0' <= name[0] <= '9') {
        Some(ascii_upper(name[0]) as u32)
    } else {
        None
    }
}

/// The first of two that is there.
pub open spec fn either_key(first: Option<u32>, second: Option<u32>) -> Option<u32> {
    if first is Some {
        first
    } else {
        second
    }
}

/// The key that is no modifier and goes by `name`.
pub open spec fn ordinary_key(name: Seq<char>) -> Option<u32> {
    either_key(
        function_key(name),
        either_key(
            editing_key(name),
            either_key(numpad_key(name), either_key(symbol_key(name), character_key(name))),
        ),
    )
}

/// What `name`, in upper case, stands for.
pub open spec fn key_part(name: Seq<char>) -> KeyPart {
    match modifier_key(name) {
        Some((mask, key)) => KeyPart::Modifier { mask, key },
        None => match ordinary_key(name) {
            Some(code) => KeyPart::Key(code),
            None => KeyPart::Unknown,
        },
    }
}

/// Looks a modifier up by name.
fn find_modifier_key(name: &str) -> (r: Option<(u32, u32)>)
    ensures
        r == modifier_key(name@),
{
    if same_text(name, "CTRL") || same_text(name, "CONTROL") || same_text(name, "CRTL")
        || same_text(name, "[CTRL]") || same_text(name, "[CONTROL]")
        || same_text(name, "[CRTL]") {
        Some((MOD_CTRL, VK_CONTROL))
    } else if same_text(name, "ALT") || same_text(name, "[ALT]") {
        Some((MOD_ALT, VK_MENU))
    } else if same_text(name, "SHIFT") || same_text(name, "[SHIFT]") {
        Some((MOD_SHIFT, VK_SHIFT))
    } else if same_text(name, "WIN") || same_text(name, "META") || same_text(name, "WINDOWS")
        || same_text(name, "[WIN]") || same_text(name, "[META]")
        || same_text(name, "[WINDOWS]") {
        Some((MOD_WIN, VK_LWIN))
    } else {
        None
    }
}

/// Looks a key up among: the function keys.
fn find_function_key(name: &str) -> (r: Option<u32>)
    ensures
        r == function_key(name@),
{
    if same_text(name, "F1") {
        Some(VK_F1)
    } else if same_text(name, "F2") {
        Some(VK_F2)
    } else if same_text(name, "F3") {
        Some(VK_F3)
    } else if same_text(name, "F4") {
        Some(VK_F4)
    } else if same_text(name, "F5") {
        Some(VK_F5)
    } else if same_text(name, "F6") {
        Some(VK_F6)
    } else if same_text(name, "F7") {
        Some(VK_F7)
    } else if same_text(name, "F8") {
        Some(VK_F8)
    } else if same_text(name, "F9") {
        Some(VK_F9)
    } else if same_text(name, "F10") {
        Some(VK_F10)
    } else if same_text(name, "F11") {
        Some(VK_F11)
    } else if same_text(name, "F12") {
        Some(VK_F12)
    } else {
        None
    }
}

/// Looks a key up among: tab, space, enter and the keys that move or edit.
fn find_editing_key(name: &str) -> (r: Option<u32>)
    ensures
        r == editing_key(name@),
{
    if same_text(name, "TAB") || same_text(name, "[TAB]") {
        Some(VK_TAB)
    } else if same_text(name, "CAPSLOCK") || same_text(name, "CAPS LOCK")
        || same_text(name, "[CAPSLOCK]") || same_text(name, "[CAPS LOCK]") {
        Some(VK_CAPITAL)
    } else if same_text(name, "SPACE") || same_text(name, "SPACEBAR")
        || same_text(name, "[SPACE]") {
        Some(VK_SPACE)
    } else if same_text(name, "ENTER") || same_text(name, "RETURN") || same_text(name, "[ENTER]")
        || same_text(name, "[RETURN]") {
        Some(VK_RETURN)
    } else if same_text(name, "BACKSPACE") || same_text(name, "BACK")
        || same_text(name, "[BACKSPACE]") {
        Some(VK_BACK)
    } else if same_text(name, "ESC") || same_text(name, "ESCAPE") || same_text(name, "[ESC]")
        || same_text(name, "[ESCAPE]") {
        Some(VK_ESCAPE)
    } else if same_text(name, "INSERT") || same_text(name, "INS") || same_text(name, "[INSERT]")
        || same_text(name, "[INS]") {
        Some(VK_INSERT)
    } else if same_text(name, "DELETE") || same_text(name, "DEL") || same_text(name, "[DELETE]")
        || same_text(name, "[DEL]") {
        Some(VK_DELETE)
    } else if same_text(name, "HOME") || same_text(name, "[HOME]") {
        Some(VK_HOME)
    } else if same_text(name, "END") || same_text(name, "[END]") {
        Some(VK_END)
    } else if same_text(name, "PAGEUP") || same_text(name, "PAGE UP") || same_text(name, "PGUP")
        || same_text(name, "[PAGEUP]") || same_text(name, "[PGUP]") {
        Some(VK_PRIOR)
    } else if same_text(name, "PAGEDOWN") || same_text(name, "PAGE DOWN")
        || same_text(name, "PGDN") || same_text(name, "[PAGEDOWN]")
        || same_text(name, "[PGDN]") {
        Some(VK_NEXT)
    } else if same_text(name, "CONTEXTMENU") || same_text(name, "CONTEXT MENU")
        || same_text(name, "APPS") || same_text(name, "[CONTEXTMENU]")
        || same_text(name, "[APPS]") {
        Some(VK_APPS)
    } else {
        None
    }
}

/// Looks a key up among: the keys of the numeric keypad.
fn find_numpad_key(name: &str) -> (r: Option<u32>)
    ensures
        r == numpad_key(name@),
{
    if same_text(name, "NUM0") || same_text(name, "NUMPAD0") || same_text(name, "[NUM0]") {
        Some(VK_NUMPAD0)
    } else if same_text(name, "NUM1") || same_text(name, "NUMPAD1") || same_text(name, "[NUM1]") {
        Some(VK_NUMPAD1)
    } else if same_text(name, "NUM2") || same_text(name, "NUMPAD2") || same_text(name, "[NUM2]") {
        Some(VK_NUMPAD2)
    } else if same_text(name, "NUM3") || same_text(name, "NUMPAD3") || same_text(name, "[NUM3]") {
        Some(VK_NUMPAD3)
    } else if same_text(name, "NUM4") || same_text(name, "NUMPAD4") || same_text(name, "[NUM4]") {
        Some(VK_NUMPAD4)
    } else if same_text(name, "NUM5") || same_text(name, "NUMPAD5") || same_text(name, "[NUM5]") {
        Some(VK_NUMPAD5)
    } else if same_text(name, "NUM6") || same_text(name, "NUMPAD6") || same_text(name, "[NUM6]") {
        Some(VK_NUMPAD6)
    } else if same_text(name, "NUM7") || same_text(name, "NUMPAD7") || same_text(name, "[NUM7]") {
        Some(VK_NUMPAD7)
    } else if same_text(name, "NUM8") || same_text(name, "NUMPAD8") || same_text(name, "[NUM8]") {
        Some(VK_NUMPAD8)
    } else if same_text(name, "NUM9") || same_text(name, "NUMPAD9") || same_text(name, "[NUM9]") {
        Some(VK_NUMPAD9)
    } else if same_text(name, "NUM*") || same_text(name, "NUMPAD*") || same_text(name, "[NUM*]") {
        Some(VK_MULTIPLY)
    } else if same_text(name, "NUM+") || same_text(name, "NUMPAD+") || same_text(name, "[NUM+]") {
        Some(VK_ADD)
    } else if same_text(name, "NUM-") || same_text(name, "NUMPAD-") || same_text(name, "[NUM-]") {
        Some(VK_SUBTRACT)
    } else if same_text(name, "NUM.") || same_text(name, "NUMPAD.") || same_text(name, "[NUM.]") {
        Some(VK_DECIMAL)
    } else if same_text(name, "NUM/") || same_text(name, "NUMPAD/") || same_text(name, "[NUM/]") {
        Some(VK_DIVIDE)
    } else {
        None
    }
}

/// Looks a key up among: the punctuation keys.
fn find_symbol_key(name: &str) -> (r: Option<u32>)
    ensures
        r == symbol_key(name@),
{
    if same_text(name, "=") || same_text(name, "[=]") {
        Some(VK_OEM_PLUS)
    } else if same_text(name, "-") || same_text(name, "MINUS") || same_text(name, "[-]")
        || same_text(name, "[MINUS]") {
        Some(VK_OEM_MINUS)
    } else if same_text(name, ",") || same_text(name, "[,]") {
        Some(VK_OEM_COMMA)
    } else if same_text(name, ".") || same_text(name, "[.]") {
        Some(VK_OEM_PERIOD)
    } else if same_text(name, "/") || same_text(name, "[/]") {
        Some(VK_OEM_2)
    } else if same_text(name, ";") || same_text(name, "[;]") {
        Some(VK_OEM_1)
    } else if same_text(name, "'") || same_text(name, "['']") || same_text(name, "[']") {
        Some(VK_OEM_7)
    } else if same_text(name, "`") || same_text(name, "TILDE") || same_text(name, "[`]")
        || same_text(name, "[TILDE]") {
        Some(VK_OEM_3)
    } else if same_text(name, "\\") || same_text(name, "[\\]") {
        Some(VK_OEM_5)
    } else if same_text(name, "[") || same_text(name, "[[]]") || same_text(name, "[[") {
        Some(VK_OEM_4)
    } else if same_text(name, "]") || same_text(name, "[]]") || same_text(name, "]]") {
        Some(VK_OEM_6)
    } else {
        None
    }
}

/// Looks a letter or a digit up.
fn find_character_key(name: &str) -> (r: Option<u32>)
    ensures
        r == character_key(name@),
{
    let chars: Vec<char> = chars_of(name);
    if chars.len() != 1 {
        return None;
    }
    let c: char = chars[0];
    if 'a' <= c && c <= 'z' {
        Some(c as u32 - 32)
    } else if ('A' <= c && c <= 'Z') || ('0' <= c && c <= '9') {
        Some(c as u32)
    } else {
        None
    }
}

/// Looks up what a name, in upper case, stands for.
pub fn classify(name: &str) -> (part: KeyPart)
    ensures
        part == key_part(name@),
{
    if let Some((mask, key)) = find_modifier_key(name) {
        return KeyPart::Modifier { mask, key };
    }
    let mut code: Option<u32> = find_function_key(name);
    if code.is_none() {
        code = find_editing_key(name);
    }
    if code.is_none() {
        code = find_numpad_key(name);
    }
    if code.is_none() {
        code = find_symbol_key(name);
    }
    if code.is_none() {
        code = find_character_key(name);
    }
    match code {
        Some(code) => KeyPart::Key(code),
        None => KeyPart::Unknown,
    }
}

// ---------------------------------------------------------------------------
// Laws
// ---------------------------------------------------------------------------

/// A letter or a digit by itself is the key whose code is that of the upper-case character.
pub proof fn law_letters_and_digits_are_their_own_keys(c: char)
    requires
        'A' <= c <= 'Z' || 'a' <= c <= 'z' || '0' <= c <= '9',
    ensures
        key_part(seq![c]) == KeyPart::Key(
            if 'a' <= c <= 'z' {
                (c as u32 - 32) as u32
            } else {
                c as u32
            },
        ),
{
    reveal_strlit("CTRL");
    reveal_strlit("CONTROL");
    reveal_strlit("CRTL");
    reveal_strlit("[CTRL]");
    reveal_strlit("[CONTROL]");
    reveal_strlit("[CRTL]");
    reveal_strlit("ALT");
    reveal_strlit("[ALT]");
    reveal_strlit("SHIFT");
    reveal_strlit("[SHIFT]");
    reveal_strlit("WIN");
    reveal_strlit("META");
    reveal_strlit("WINDOWS");
    reveal_strlit("[WIN]");
    reveal_strlit("[META]");
    reveal_strlit("[WINDOWS]");
    reveal_strlit("F1");
    reveal_strlit("F2");
    reveal_strlit("F3");
    reveal_strlit("F4");
    reveal_strlit("F5");
    reveal_strlit("F6");
    reveal_strlit("F7");
    reveal_strlit("F8");
    reveal_strlit("F9");
    reveal_strlit("F10");
    reveal_strlit("F11");
    reveal_strlit("F12");
    reveal_strlit("TAB");
    reveal_strlit("[TAB]");
    reveal_strlit("CAPSLOCK");
    reveal_strlit("CAPS LOCK");
    reveal_strlit("[CAPSLOCK]");
    reveal_strlit("[CAPS LOCK]");
    reveal_strlit("SPACE");
    reveal_strlit("SPACEBAR");
    reveal_strlit("[SPACE]");
    reveal_strlit("ENTER");
    reveal_strlit("RETURN");
    reveal_strlit("[ENTER]");
    reveal_strlit("[RETURN]");
    reveal_strlit("BACKSPACE");
    reveal_strlit("BACK");
    reveal_strlit("[BACKSPACE]");
    reveal_strlit("ESC");
    reveal_strlit("ESCAPE");
    reveal_strlit("[ESC]");
    reveal_strlit("[ESCAPE]");
    reveal_strlit("INSERT");
    reveal_strlit("INS");
    reveal_strlit("[INSERT]");
    reveal_strlit("[INS]");
    reveal_strlit("DELETE");
    reveal_strlit("DEL");
    reveal_strlit("[DELETE]");
    reveal_strlit("[DEL]");
    reveal_strlit("HOME");
    reveal_strlit("[HOME]");
    reveal_strlit("END");
    reveal_strlit("[END]");
    reveal_strlit("PAGEUP");
    reveal_strlit("PAGE UP");
    reveal_strlit("PGUP");
    reveal_strlit("[PAGEUP]");
    reveal_strlit("[PGUP]");
    reveal_strlit("PAGEDOWN");
    reveal_strlit("PAGE DOWN");
    reveal_strlit("PGDN");
    reveal_strlit("[PAGEDOWN]");
    reveal_strlit("[PGDN]");
    reveal_strlit("CONTEXTMENU");
    reveal_strlit("CONTEXT MENU");
    reveal_strlit("APPS");
    reveal_strlit("[CONTEXTMENU]");
    reveal_strlit("[APPS]");
    reveal_strlit("NUM0");
    reveal_strlit("NUMPAD0");
    reveal_strlit("[NUM0]");
    reveal_strlit("NUM1");
    reveal_strlit("NUMPAD1");
    reveal_strlit("[NUM1]");
    reveal_strlit("NUM2");
    reveal_strlit("NUMPAD2");
    reveal_strlit("[NUM2]");
    reveal_strlit("NUM3");
    reveal_strlit("NUMPAD3");
    reveal_strlit("[NUM3]");
    reveal_strlit("NUM4");
    reveal_strlit("NUMPAD4");
    reveal_strlit("[NUM4]");
    reveal_strlit("NUM5");
    reveal_strlit("NUMPAD5");
    reveal_strlit("[NUM5]");
    reveal_strlit("NUM6");
    reveal_strlit("NUMPAD6");
    reveal_strlit("[NUM6]");
    reveal_strlit("NUM7");
    reveal_strlit("NUMPAD7");
    reveal_strlit("[NUM7]");
    reveal_strlit("NUM8");
    reveal_strlit("NUMPAD8");
    reveal_strlit("[NUM8]");
    reveal_strlit("NUM9");
    reveal_strlit("NUMPAD9");
    reveal_strlit("[NUM9]");
    reveal_strlit("NUM*");
    reveal_strlit("NUMPAD*");
    reveal_strlit("[NUM*]");
    reveal_strlit("NUM+");
    reveal_strlit("NUMPAD+");
    reveal_strlit("[NUM+]");
    reveal_strlit("NUM-");
    reveal_strlit("NUMPAD-");
    reveal_strlit("[NUM-]");
    reveal_strlit("NUM.");
    reveal_strlit("NUMPAD.");
    reveal_strlit("[NUM.]");
    reveal_strlit("NUM/");
    reveal_strlit("NUMPAD/");
    reveal_strlit("[NUM/]");
    reveal_strlit("=");
    reveal_strlit("[=]");
    reveal_strlit("-");
    reveal_strlit("MINUS");
    reveal_strlit("[-]");
    reveal_strlit("[MINUS]");
    reveal_strlit(",");
    reveal_strlit("[,]");
    reveal_strlit(".");
    reveal_strlit("[.]");
    reveal_strlit("/");
    reveal_strlit("[/]");
    reveal_strlit(";");
    reveal_strlit("[;]");
    reveal_strlit("'");
    reveal_strlit("['']");
    reveal_strlit("[']");
    reveal_strlit("`");
    reveal_strlit("TILDE");
    reveal_strlit("[`]");
    reveal_strlit("[TILDE]");
    reveal_strlit("\\");
    reveal_strlit("[\\]");
    reveal_strlit("[");
    reveal_strlit("[[]]");
    reveal_strlit("[[");
    reveal_strlit("]");
    reveal_strlit("[]]");
    reveal_strlit("]]");
    assert("CTRL"@.len() == 4);
    assert("CONTROL"@.len() == 7);
    assert("CRTL"@.len() == 4);
    assert("[CTRL]"@.len() == 6);
    assert("[CONTROL]"@.len() == 9);
    assert("[CRTL]"@.len() == 6);
    assert("ALT"@.len() == 3);
    assert("[ALT]"@.len() == 5);
    assert("SHIFT"@.len() == 5);
    assert("[SHIFT]"@.len() == 7);
    assert("WIN"@.len() == 3);
    assert("META"@.len() == 4);
    assert("WINDOWS"@.len() == 7);
    assert("[WIN]"@.len() == 5);
    assert("[META]"@.len() == 6);
    assert("[WINDOWS]"@.len() == 9);
    assert("F1"@.len() == 2);
    assert("F2"@.len() == 2);
    assert("F3"@.len() == 2);
    assert("F4"@.len() == 2);
    assert("F5"@.len() == 2);
    assert("F6"@.len() == 2);
    assert("F7"@.len() == 2);
    assert("F8"@.len() == 2);
    assert("F9"@.len() == 2);
    assert("F10"@.len() == 3);
    assert("F11"@.len() == 3);
    assert("F12"@.len() == 3);
    assert("TAB"@.len() == 3);
    assert("[TAB]"@.len() == 5);
    assert("CAPSLOCK"@.len() == 8);
    assert("CAPS LOCK"@.len() == 9);
    assert("[CAPSLOCK]"@.len() == 10);
    assert("[CAPS LOCK]"@.len() == 11);
    assert("SPACE"@.len() == 5);
    assert("SPACEBAR"@.len() == 8);
    assert("[SPACE]"@.len() == 7);
    assert("ENTER"@.len() == 5);
    assert("RETURN"@.len() == 6);
    assert("[ENTER]"@.len() == 7);
    assert("[RETURN]"@.len() == 8);
    assert("BACKSPACE"@.len() == 9);
    assert("BACK"@.len() == 4);
    assert("[BACKSPACE]"@.len() == 11);
    assert("ESC"@.len() == 3);
    assert("ESCAPE"@.len() == 6);
    assert("[ESC]"@.len() == 5);
    assert("[ESCAPE]"@.len() == 8);
    assert("INSERT"@.len() == 6);
    assert("INS"@.len() == 3);
    assert("[INSERT]"@.len() == 8);
    assert("[INS]"@.len() == 5);
    assert("DELETE"@.len() == 6);
    assert("DEL"@.len() == 3);
    assert("[DELETE]"@.len() == 8);
    assert("[DEL]"@.len() == 5);
    assert("HOME"@.len() == 4);
    assert("[HOME]"@.len() == 6);
    assert("END"@.len() == 3);
    assert("[END]"@.len() == 5);
    assert("PAGEUP"@.len() == 6);
    assert("PAGE UP"@.len() == 7);
    assert("PGUP"@.len() == 4);
    assert("[PAGEUP]"@.len() == 8);
    assert("[PGUP]"@.len() == 6);
    assert("PAGEDOWN"@.len() == 8);
    assert("PAGE DOWN"@.len() == 9);
    assert("PGDN"@.len() == 4);
    assert("[PAGEDOWN]"@.len() == 10);
    assert("[PGDN]"@.len() == 6);
    assert("CONTEXTMENU"@.len() == 11);
    assert("CONTEXT MENU"@.len() == 12);
    assert("APPS"@.len() == 4);
    assert("[CONTEXTMENU]"@.len() == 13);
    assert("[APPS]"@.len() == 6);
    assert("NUM0"@.len() == 4);
    assert("NUMPAD0"@.len() == 7);
    assert("[NUM0]"@.len() == 6);
    assert("NUM1"@.len() == 4);
    assert("NUMPAD1"@.len() == 7);
    assert("[NUM1]"@.len() == 6);
    assert("NUM2"@.len() == 4);
    assert("NUMPAD2"@.len() == 7);
    assert("[NUM2]"@.len() == 6);
    assert("NUM3"@.len() == 4);
    assert("NUMPAD3"@.len() == 7);
    assert("[NUM3]"@.len() == 6);
    assert("NUM4"@.len() == 4);
    assert("NUMPAD4"@.len() == 7);
    assert("[NUM4]"@.len() == 6);
    assert("NUM5"@.len() == 4);
    assert("NUMPAD5"@.len() == 7);
    assert("[NUM5]"@.len() == 6);
    assert("NUM6"@.len() == 4);
    assert("NUMPAD6"@.len() == 7);
    assert("[NUM6]"@.len() == 6);
    assert("NUM7"@.len() == 4);
    assert("NUMPAD7"@.len() == 7);
    assert("[NUM7]"@.len() == 6);
    assert("NUM8"@.len() == 4);
    assert("NUMPAD8"@.len() == 7);
    assert("[NUM8]"@.len() == 6);
    assert("NUM9"@.len() == 4);
    assert("NUMPAD9"@.len() == 7);
    assert("[NUM9]"@.len() == 6);
    assert("NUM*"@.len() == 4);
    assert("NUMPAD*"@.len() == 7);
    assert("[NUM*]"@.len() == 6);
    assert("NUM+"@.len() == 4);
    assert("NUMPAD+"@.len() == 7);
    assert("[NUM+]"@.len() == 6);
    assert("NUM-"@.len() == 4);
    assert("NUMPAD-"@.len() == 7);
    assert("[NUM-]"@.len() == 6);
    assert("NUM."@.len() == 4);
    assert("NUMPAD."@.len() == 7);
    assert("[NUM.]"@.len() == 6);
    assert("NUM/"@.len() == 4);
    assert("NUMPAD/"@.len() == 7);
    assert("[NUM/]"@.len() == 6);
    assert("="@[0] == '=');
    assert("[=]"@.len() == 3);
    assert("-"@[0] == '-');
    assert("MINUS"@.len() == 5);
    assert("[-]"@.len() == 3);
    assert("[MINUS]"@.len() == 7);
    assert(","@[0] == ',');
    assert("[,]"@.len() == 3);
    assert("."@[0] == '.');
    assert("[.]"@.len() == 3);
    assert("/"@[0] == '/');
    assert("[/]"@.len() == 3);
    assert(";"@[0] == ';');
    assert("[;]"@.len() == 3);
    assert("'"@[0] == '\'');
    assert("['']"@.len() == 4);
    assert("[']"@.len() == 3);
    assert("`"@[0] == '`');
    assert("TILDE"@.len() == 5);
    assert("[`]"@.len() == 3);
    assert("[TILDE]"@.len() == 7);
    assert("\\"@[0] == '\\');
    assert("[\\]"@.len() == 3);
    assert("["@[0] == '[');
    assert("[[]]"@.len() == 4);
    assert("[["@.len() == 2);
    assert("]"@[0] == ']');
    assert("[]]"@.len() == 3);
    assert("]]"@.len() == 2);
    assert(seq![c].len() == 1 && seq![c][0] == c);
}

/// A modifier may stand in brackets: with them and without them its name means the same.
pub proof fn law_brackets_around_modifiers_do_not_matter(name: Seq<char>)
    requires
        name.len() > 0,
        name[0] != '[',
    ensures
        modifier_key(seq!['['] + name + seq![']']) == modifier_key(name),
{
    let full = seq!['['] + name + seq![']'];
    assert(full[0] == '[');
    assert(full.subrange(1, full.len() - 1) =~= name);
    reveal_strlit("CTRL");
    reveal_strlit("CONTROL");
    reveal_strlit("CRTL");
    reveal_strlit("[CTRL]");
    reveal_strlit("[CONTROL]");
    reveal_strlit("[CRTL]");
    reveal_strlit("ALT");
    reveal_strlit("[ALT]");
    reveal_strlit("SHIFT");
    reveal_strlit("[SHIFT]");
    reveal_strlit("WIN");
    reveal_strlit("META");
    reveal_strlit("WINDOWS");
    reveal_strlit("[WIN]");
    reveal_strlit("[META]");
    reveal_strlit("[WINDOWS]");
    assert("[CTRL]"@ =~= seq!['['] + "CTRL"@ + seq![']']);
    assert("[CONTROL]"@ =~= seq!['['] + "CONTROL"@ + seq![']']);
    assert("[CRTL]"@ =~= seq!['['] + "CRTL"@ + seq![']']);
    assert("[ALT]"@ =~= seq!['['] + "ALT"@ + seq![']']);
    assert("[SHIFT]"@ =~= seq!['['] + "SHIFT"@ + seq![']']);
    assert("[WIN]"@ =~= seq!['['] + "WIN"@ + seq![']']);
    assert("[META]"@ =~= seq!['['] + "META"@ + seq![']']);
    assert("[WINDOWS]"@ =~= seq!['['] + "WINDOWS"@ + seq![']']);
    assert("[CTRL]"@.subrange(1, "[CTRL]"@.len() - 1) =~= "CTRL"@);
    assert("[CONTROL]"@.subrange(1, "[CONTROL]"@.len() - 1) =~= "CONTROL"@);
    assert("[CRTL]"@.subrange(1, "[CRTL]"@.len() - 1) =~= "CRTL"@);
    assert("[ALT]"@.subrange(1, "[ALT]"@.len() - 1) =~= "ALT"@);
    assert("[SHIFT]"@.subrange(1, "[SHIFT]"@.len() - 1) =~= "SHIFT"@);
    assert("[WIN]"@.subrange(1, "[WIN]"@.len() - 1) =~= "WIN"@);
    assert("[META]"@.subrange(1, "[META]"@.len() - 1) =~= "META"@);
    assert("[WINDOWS]"@.subrange(1, "[WINDOWS]"@.len() - 1) =~= "WINDOWS"@);
    assert("CTRL"@[0] == 'C');
    assert("CONTROL"@[0] == 'C');
    assert("CRTL"@[0] == 'C');
    assert("ALT"@[0] == 'A');
    assert("SHIFT"@[0] == 'S');
    assert("WIN"@[0] == 'W');
    assert("META"@[0] == 'M');
    assert("WINDOWS"@[0] == 'W');
}

/// Each modifier has a bit of its own, and the key that it is by itself: control 1, alt 2,
/// shift 4 and Windows 8. No other name is a modifier.
pub proof fn law_modifiers_and_their_bits(name: Seq<char>)
    ensures
        modifier_key(name) is None || modifier_key(name) == Some((1u32, 0x11u32)) || modifier_key(
            name,
        ) == Some((2u32, 0x12u32)) || modifier_key(name) == Some((4u32, 0x10u32)) || modifier_key(
            name,
        ) == Some((8u32, 0x5Bu32)),
        modifier_key(name) == Some((1u32, 0x11u32)) <==> name == "CTRL"@ || name == "[CTRL]"@ || name
            == "CONTROL"@ || name == "[CONTROL]"@ || name == "CRTL"@ || name == "[CRTL]"@,
        modifier_key(name) == Some((2u32, 0x12u32)) <==> name == "ALT"@ || name == "[ALT]"@,
        modifier_key(name) == Some((4u32, 0x10u32)) <==> name == "SHIFT"@ || name == "[SHIFT]"@,
        modifier_key(name) == Some((8u32, 0x5Bu32)) <==> name == "WIN"@ || name == "[WIN]"@ || name
            == "META"@ || name == "[META]"@ || name == "WINDOWS"@ || name == "[WINDOWS]"@,
{
    reveal_strlit("CTRL");
    reveal_strlit("CONTROL");
    reveal_strlit("CRTL");
    reveal_strlit("[CTRL]");
    reveal_strlit("[CONTROL]");
    reveal_strlit("[CRTL]");
    reveal_strlit("ALT");
    reveal_strlit("[ALT]");
    reveal_strlit("SHIFT");
    reveal_strlit("[SHIFT]");
    reveal_strlit("WIN");
    reveal_strlit("META");
    reveal_strlit("WINDOWS");
    reveal_strlit("[WIN]");
    reveal_strlit("[META]");
    reveal_strlit("[WINDOWS]");
    assert("CTRL"@.len() == 4 && "CTRL"@[0] == 'C' && "CTRL"@[1] == 'T');
    assert("CONTROL"@.len() == 7 && "CONTROL"@[0] == 'C' && "CONTROL"@[1] == 'O');
    assert("CRTL"@.len() == 4 && "CRTL"@[0] == 'C' && "CRTL"@[1] == 'R');
    assert("[CTRL]"@.len() == 6 && "[CTRL]"@[0] == '[' && "[CTRL]"@[1] == 'C');
    assert("[CONTROL]"@.len() == 9 && "[CONTROL]"@[0] == '[' && "[CONTROL]"@[1] == 'C');
    assert("[CRTL]"@.len() == 6 && "[CRTL]"@[0] == '[' && "[CRTL]"@[1] == 'C');
    assert("ALT"@.len() == 3 && "ALT"@[0] == 'A' && "ALT"@[1] == 'L');
    assert("[ALT]"@.len() == 5 && "[ALT]"@[0] == '[' && "[ALT]"@[1] == 'A');
    assert("SHIFT"@.len() == 5 && "SHIFT"@[0] == 'S' && "SHIFT"@[1] == 'H');
    assert("[SHIFT]"@.len() == 7 && "[SHIFT]"@[0] == '[' && "[SHIFT]"@[1] == 'S');
    assert("WIN"@.len() == 3 && "WIN"@[0] == 'W' && "WIN"@[1] == 'I');
    assert("META"@.len() == 4 && "META"@[0] == 'M' && "META"@[1] == 'E');
    assert("WINDOWS"@.len() == 7 && "WINDOWS"@[0] == 'W' && "WINDOWS"@[1] == 'I');
    assert("[WIN]"@.len() == 5 && "[WIN]"@[0] == '[' && "[WIN]"@[1] == 'W');
    assert("[META]"@.len() == 6 && "[META]"@[0] == '[' && "[META]"@[1] == 'M');
    assert("[WINDOWS]"@.len() == 9 && "[WINDOWS]"@[0] == '[' && "[WINDOWS]"@[1] == 'W');
}

} // verus!
