//! The capture hotkey: which key it is, when it fires, and how often it may.

use vstd::prelude::*;
use vstd::string::*;
use vstd::utf8::is_ascii_chars;
use crate::keybind::{
    ascii_keybind, ascii_names_in, key_parts, keybind, last_key, mask_of, parse_keybind_to_vk,
};
use crate::keynames::{
    MOD_ALT, MOD_CTRL, MOD_SHIFT, MOD_WIN, function_key, key_part, modifier_key,
};
use crate::text::{ascii_uppercase, split_on, trimmed};
use crate::vk::{VK_F8, VK_F9, VK_LWIN, VK_RWIN};

verus! {

// ---------------------------------------------------------------------------
// The keyboard at one moment
// ---------------------------------------------------------------------------

/// What `GetAsyncKeyState` says of the keys that one poll reads.
#[derive(Clone, Copy, Debug, PartialEq, Eq, Structural)]
pub struct KeyStates {
    /// The key of the hotkey itself.
    pub key: i16,
    pub control: i16,
    pub menu: i16,
    pub shift: i16,
    pub left_win: i16,
    pub right_win: i16,
}

/// A key is held down when the top bit of its state is set.
pub open spec fn is_down(state: i16) -> bool {
    state < 0
}

/// One of the two Windows keys is held down.
pub open spec fn win_is_down(keys: KeyStates) -> bool {
    is_down(keys.left_win) || is_down(keys.right_win)
}

/// The mask of the modifiers that are held down.
pub open spec fn modifiers_down(keys: KeyStates) -> u32 {
    mask_of(is_down(keys.control), is_down(keys.menu), is_down(keys.shift), win_is_down(keys))
}

/// The key with this code is held down; the two Windows keys count as one.
pub open spec fn key_is_down(vk_code: u32, keys: KeyStates) -> bool {
    if vk_code == VK_LWIN || vk_code == VK_RWIN {
        win_is_down(keys)
    } else {
        is_down(keys.key)
    }
}

/// Tests the top bit of a key state.
pub fn held(state: i16) -> (down: bool)
    ensures
        down == is_down(state),
{
    assert(((state as u16) & 0x8000 != 0) == (state < 0)) by (bit_vector);
    #[verifier::truncate]
    let bits: u16 = state as u16;
    bits & 0x8000 != 0
}

/// Reads off which modifiers are held down.
pub fn check_modifiers(keys: &KeyStates) -> (mods: u32)
    ensures
        mods == modifiers_down(*keys),
{
    let mut mods: u32 = 0;
    if held(keys.control) {
        mods = mods + MOD_CTRL;
    }
    if held(keys.menu) {
        mods = mods + MOD_ALT;
    }
    if held(keys.shift) {
        mods = mods + MOD_SHIFT;
    }
    if held(keys.left_win) || held(keys.right_win) {
        mods = mods + MOD_WIN;
    }
    mods
}

/// Reads off whether a key is held down.
pub fn is_key_down(vk_code: u32, keys: &KeyStates) -> (down: bool)
    ensures
        down == key_is_down(vk_code, *keys),
{
    if vk_code == VK_LWIN || vk_code == VK_RWIN {
        held(keys.left_win) || held(keys.right_win)
    } else {
        held(keys.key)
    }
}

// ---------------------------------------------------------------------------
// The hotkey
// ---------------------------------------------------------------------------

/// The two hotkeys, and whether the capture hotkey was down at the last poll.
#[derive(Clone, Copy, Debug, PartialEq, Eq, Structural)]
pub struct HotkeyState {
    pub capture_key_code: u32,
    pub capture_modifiers: u32,
    pub clear_key_code: u32,
    pub clear_modifiers: u32,
    pub capture_key_was_down: bool,
}

/// The hotkeys before any were configured: F8 captures and F9 clears.
pub open spec fn initial_hotkeys() -> HotkeyState {
    HotkeyState {
        capture_key_code: VK_F8,
        capture_modifiers: 0,
        clear_key_code: VK_F9,
        clear_modifiers: 0,
        capture_key_was_down: false,
    }
}

impl Default for HotkeyState {
    fn default() -> (state: Self)
        ensures
            state == initial_hotkeys(),
    {
        HotkeyState {
            capture_key_code: VK_F8,
            capture_modifiers: 0,
            clear_key_code: VK_F9,
            clear_modifiers: 0,
            capture_key_was_down: false,
        }
    }
}

/// The capture hotkey is held: its key is down, and so is every modifier that it
/// asks for. Modifiers that it does not ask for make no difference.
pub open spec fn capture_held(state: HotkeyState, keys: KeyStates) -> bool {
    &&& key_is_down(state.capture_key_code, keys)
    &&& state.capture_modifiers == 0 || modifiers_down(keys) & state.capture_modifiers
        == state.capture_modifiers
}

/// The state after a poll.
pub open spec fn polled(state: HotkeyState, keys: KeyStates) -> HotkeyState {
    HotkeyState { capture_key_was_down: capture_held(state, keys), ..state }
}

/// The poll is the one at which the hotkey goes down.
pub open spec fn capture_pressed(state: HotkeyState, keys: KeyStates) -> bool {
    capture_held(state, keys) && !state.capture_key_was_down
}

/// Polls the capture hotkey: true once for each time that it goes down.
pub fn check_capture_hotkey(state: &mut HotkeyState, keys: &KeyStates) -> (pressed: bool)
    ensures
        pressed == capture_pressed(*old(state), *keys),
        *final(state) == polled(*old(state), *keys),
{
    let capture_key: u32 = state.capture_key_code;
    let capture_mods: u32 = state.capture_modifiers;
    let key_down: bool = is_key_down(capture_key, keys);
    let current_mods: u32 = check_modifiers(keys);
    let was_down: bool = state.capture_key_was_down;
    let mods_ok: bool = capture_mods == 0 || (current_mods & capture_mods) == capture_mods;
    if key_down && mods_ok {
        state.capture_key_was_down = true;
        !was_down
    } else {
        state.capture_key_was_down = false;
        false
    }
}

/// The hotkeys with new bindings, each where there is one.
pub open spec fn rebound(
    state: HotkeyState,
    capture: Option<(u32, u32)>,
    clear: Option<(u32, u32)>,
) -> HotkeyState {
    HotkeyState {
        capture_key_code: match capture {
            Some((vk, _)) => vk,
            None => state.capture_key_code,
        },
        capture_modifiers: match capture {
            Some((_, mods)) => mods,
            None => state.capture_modifiers,
        },
        clear_key_code: match clear {
            Some((vk, _)) => vk,
            None => state.clear_key_code,
        },
        clear_modifiers: match clear {
            Some((_, mods)) => mods,
            None => state.clear_modifiers,
        },
        capture_key_was_down: state.capture_key_was_down,
    }
}

/// Binds the two hotkeys anew. A keybind that names no key leaves its hotkey as it
/// was. Returns which of the two keybinds were understood.
pub fn update_keybinds(state: &mut HotkeyState, capture: &str, clear: &str) -> (understood: (
    bool,
    bool,
))
    ensures
        *final(state) == rebound(*old(state), keybind(capture@), keybind(clear@)),
        understood == (keybind(capture@) is Some, keybind(clear@) is Some),
        is_ascii_chars(capture@) && is_ascii_chars(clear@) ==> {
            &&& *final(state) == rebound(*old(state), ascii_keybind(capture@), ascii_keybind(clear@))
            &&& understood == (ascii_keybind(capture@) is Some, ascii_keybind(clear@) is Some)
        },
{
    let new_capture: Option<(u32, u32)> = parse_keybind_to_vk(capture);
    if let Some((vk, mods)) = new_capture {
        state.capture_key_code = vk;
        state.capture_modifiers = mods;
    }
    let new_clear: Option<(u32, u32)> = parse_keybind_to_vk(clear);
    if let Some((vk, mods)) = new_clear {
        state.clear_key_code = vk;
        state.clear_modifiers = mods;
    }
    (new_capture.is_some(), new_clear.is_some())
}

/// The keybinds as they were configured.
#[derive(Clone, Debug)]
pub struct KeybindConfig {
    pub capture_screen: String,
    pub clear_screen: String,
}

impl Default for KeybindConfig {
    fn default() -> (config: Self)
        ensures
            config.capture_screen@ == "F8"@,
            config.clear_screen@ == "F9"@,
    {
        KeybindConfig { capture_screen: "F8".to_owned(), clear_screen: "F9".to_owned() }
    }
}

// ---------------------------------------------------------------------------
// The cooldown
// ---------------------------------------------------------------------------

/// The time from one poll of the hotkey to the next, in milliseconds.
pub const POLL_INTERVAL_MS: u64 = 5;

/// The least time between two captures by hotkey, in milliseconds.
pub const CAPTURE_COOLDOWN_MS: u64 = 5000;

/// What becomes of a press of the capture hotkey.
#[derive(Clone, Copy, Debug, PartialEq, Eq, Structural)]
pub enum HotkeyOutcome {
    /// The game is not running, or not in front.
    NotInGame,
    /// Capture now.
    Capture,
    /// The last capture is too recent; so many milliseconds are left to wait.
    CoolingDown { remaining_ms: u64 },
}

/// The time since the last capture, none where the clock went back.
pub open spec fn elapsed_ms(last_ms: u64, now_ms: u64) -> int {
    if now_ms >= last_ms {
        now_ms - last_ms
    } else {
        0
    }
}

/// What a press at `now_ms` leads to.
pub open spec fn press_outcome(
    last_ms: u64,
    is_running: bool,
    is_foreground: bool,
    now_ms: u64,
) -> HotkeyOutcome {
    if !is_running || !is_foreground {
        HotkeyOutcome::NotInGame
    } else if elapsed_ms(last_ms, now_ms) >= CAPTURE_COOLDOWN_MS {
        HotkeyOutcome::Capture
    } else {
        HotkeyOutcome::CoolingDown {
            remaining_ms: (CAPTURE_COOLDOWN_MS - elapsed_ms(last_ms, now_ms)) as u64,
        }
    }
}

/// The time of the last capture after a press at `now_ms`.
pub open spec fn last_capture_after(
    last_ms: u64,
    is_running: bool,
    is_foreground: bool,
    now_ms: u64,
) -> u64 {
    if press_outcome(last_ms, is_running, is_foreground, now_ms) is Capture {
        now_ms
    } else {
        last_ms
    }
}

/// Decides what a press of the capture hotkey leads to, and notes the time when it
/// leads to a capture.
pub fn decide_capture(
    last_capture_ms: &mut u64,
    is_running: bool,
    is_foreground: bool,
    now_ms: u64,
) -> (outcome: HotkeyOutcome)
    ensures
        outcome == press_outcome(*old(last_capture_ms), is_running, is_foreground, now_ms),
        *final(last_capture_ms) == last_capture_after(
            *old(last_capture_ms),
            is_running,
            is_foreground,
            now_ms,
        ),
{
    if !is_running || !is_foreground {
        return HotkeyOutcome::NotInGame;
    }
    let elapsed: u64 = now_ms.saturating_sub(*last_capture_ms);
    if elapsed >= CAPTURE_COOLDOWN_MS {
        *last_capture_ms = now_ms;
        HotkeyOutcome::Capture
    } else {
        HotkeyOutcome::CoolingDown { remaining_ms: CAPTURE_COOLDOWN_MS - elapsed }
    }
}

// ---------------------------------------------------------------------------
// Laws
// ---------------------------------------------------------------------------

/// The state after a series of polls.
pub open spec fn polled_all(state: HotkeyState, polls: Seq<KeyStates>) -> HotkeyState
    decreases polls.len(),
{
    if polls.len() == 0 {
        state
    } else {
        polled(polled_all(state, polls.drop_last()), polls.last())
    }
}

/// The poll at position `i` of a series reports a press.
pub open spec fn pressed_at(state: HotkeyState, polls: Seq<KeyStates>, i: int) -> bool {
    capture_pressed(polled_all(state, polls.take(i)), polls[i])
}

proof fn lemma_polled_all(state: HotkeyState, polls: Seq<KeyStates>)
    ensures
        polled_all(state, polls) == (HotkeyState {
            capture_key_was_down: if polls.len() == 0 {
                state.capture_key_was_down
            } else {
                capture_held(state, polls.last())
            },
            ..state
        }),
    decreases polls.len(),
{
    if polls.len() > 0 {
        lemma_polled_all(state, polls.drop_last());
    }
}

/// A poll reports a press exactly when the hotkey is held and was not held at the
/// poll before.
pub proof fn law_press_is_rising_edge(state: HotkeyState, polls: Seq<KeyStates>, i: int)
    requires
        0 <= i < polls.len(),
    ensures
        pressed_at(state, polls, i) == (capture_held(state, polls[i]) && !(if i == 0 {
            state.capture_key_was_down
        } else {
            capture_held(state, polls[i - 1])
        })),
{
    lemma_polled_all(state, polls.take(i));
    if i > 0 {
        assert(polls.take(i).last() == polls[i - 1]);
    }
}

/// Between two presses the hotkey was let go: holding it down never fires twice.
pub proof fn law_released_between_presses(
    state: HotkeyState,
    polls: Seq<KeyStates>,
    i: int,
    j: int,
)
    requires
        0 <= i < j < polls.len(),
        pressed_at(state, polls, i),
        pressed_at(state, polls, j),
    ensures
        exists|k: int| i < k < j && !capture_held(state, #[trigger] polls[k]),
{
    law_press_is_rising_edge(state, polls, i);
    law_press_is_rising_edge(state, polls, j);
    assert(!capture_held(state, polls[j - 1]));
}

/// Binding the same keybinds a second time changes nothing.
pub proof fn law_rebinding_is_idempotent(
    state: HotkeyState,
    capture: Option<(u32, u32)>,
    clear: Option<(u32, u32)>,
)
    ensures
        rebound(rebound(state, capture, clear), capture, clear) == rebound(state, capture, clear),
{
}

/// Keybinds that name no key leave the hotkeys as they were.
pub proof fn law_unreadable_keybinds_are_ignored(state: HotkeyState)
    ensures
        rebound(state, None, None) == state,
{
}

/// The keybinds that stand in for missing ones, F8 and F9, bind the keys that the
/// hotkeys start out with: configuring them changes nothing.
pub proof fn law_default_keybinds_match_initial_hotkeys()
    ensures
        ascii_keybind("F8"@) == Some((VK_F8, 0u32)),
        ascii_keybind("F9"@) == Some((VK_F9, 0u32)),
        rebound(initial_hotkeys(), ascii_keybind("F8"@), ascii_keybind("F9"@)) == initial_hotkeys(),
{
    reveal_strlit("CTRL");
    reveal_strlit("CONTROL");
    reveal_strlit("CRTL");
    reveal_strlit("[CTRL]");
    reveal_strlit("[CONTROL]");
    reveal_strlit("[CRTL]");
    reveal_strlit("ALT");
    reveal_strlit("[ALT]");
    reveal_strlit("SHIFT");
    reveal_strlit("[SHIFT]");
    reveal_strlit("WIN");
    reveal_strlit("META");
    reveal_strlit("WINDOWS");
    reveal_strlit("[WIN]");
    reveal_strlit("[META]");
    reveal_strlit("[WINDOWS]");
    reveal_strlit("F1");
    reveal_strlit("F2");
    reveal_strlit("F3");
    reveal_strlit("F4");
    reveal_strlit("F5");
    reveal_strlit("F6");
    reveal_strlit("F7");
    reveal_strlit("F8");
    reveal_strlit("F9");
    assert("F8"@ =~= seq!['F', '8']);
    assert("F9"@ =~= seq!['F', '9']);
    assert("F8"@[1] == '8' && "F9"@[1] == '9');
    lemma_function_keybind("F8"@, '8');
    lemma_function_keybind("F9"@, '9');
}

/// The keybind `F` and one more character binds what the name of these two
/// characters stands for.
proof fn lemma_function_keybind(text: Seq<char>, d: char)
    requires
        text == seq!['F', d],
        d == '8' || d == '9',
        modifier_key(text) is None,
        function_key(text) is Some,
    ensures
        ascii_keybind(text) == Some((function_key(text)->0, 0u32)),
{
    reveal_with_fuel(split_on, 3);
    assert(text.drop_last() =~= seq!['F']);
    assert(text.drop_last().drop_last() =~= Seq::<char>::empty());
    assert(Seq::<char>::empty().push('F').push(d) =~= text);
    assert(split_on(text, '+') =~= seq![text]);
    assert(trimmed(text) == text);
    assert(ascii_uppercase(text) =~= text);
    assert(ascii_names_in(text) =~= seq![text]);
    let part = key_part(text);
    let parts = key_parts(ascii_names_in(text));
    assert(parts =~= seq![part]);
    assert(parts.last() == part);
    assert(last_key(parts) == Some(function_key(text)->0));
}

/// One press of the capture hotkey, as the cooldown sees it.
pub struct Press {
    pub is_running: bool,
    pub is_foreground: bool,
    pub now_ms: u64,
}

/// The time of the last capture after a series of presses.
pub open spec fn last_capture_after_all(last_ms: u64, presses: Seq<Press>) -> u64
    decreases presses.len(),
{
    if presses.len() == 0 {
        last_ms
    } else {
        let p = presses.last();
        last_capture_after(
            last_capture_after_all(last_ms, presses.drop_last()),
            p.is_running,
            p.is_foreground,
            p.now_ms,
        )
    }
}

/// The press at position `i` of a series leads to a capture.
pub open spec fn captures_at(last_ms: u64, presses: Seq<Press>, i: int) -> bool {
    press_outcome(
        last_capture_after_all(last_ms, presses.take(i)),
        presses[i].is_running,
        presses[i].is_foreground,
        presses[i].now_ms,
    ) is Capture
}

/// Two captures by hotkey are at least the cooldown apart, whatever the clock does.
pub proof fn law_captures_respect_cooldown(last_ms: u64, presses: Seq<Press>, i: int, j: int)
    requires
        0 <= i < j < presses.len(),
        captures_at(last_ms, presses, i),
        captures_at(last_ms, presses, j),
    ensures
        presses[j].now_ms >= presses[i].now_ms + CAPTURE_COOLDOWN_MS,
{
    lemma_last_capture_not_before(last_ms, presses, i, j);
}

proof fn lemma_last_capture_not_before(last_ms: u64, presses: Seq<Press>, i: int, j: int)
    requires
        0 <= i < j <= presses.len(),
        captures_at(last_ms, presses, i),
    ensures
        last_capture_after_all(last_ms, presses.take(j)) >= presses[i].now_ms,
    decreases j,
{
    assert(presses.take(j).drop_last() == presses.take(j - 1));
    assert(presses.take(j).last() == presses[j - 1]);
    if i < j - 1 {
        lemma_last_capture_not_before(last_ms, presses, i, j - 1);
    }
}

/// A capture by hotkey happens only while the game runs and is in front.
pub proof fn law_captures_only_in_game(
    last_ms: u64,
    is_running: bool,
    is_foreground: bool,
    now_ms: u64,
)
    ensures
        press_outcome(last_ms, is_running, is_foreground, now_ms) is Capture ==> is_running
            && is_foreground,
{
}

/// A key of the keyboard that a bit of a modifier mask asks for, and that is held down.
/// Bit 1 is control, bit 2 alt, bit 4 shift, and bit 8 either Windows key.
pub open spec fn modifiers_are_held(mask: u32, keys: KeyStates) -> bool {
    &&& mask & 1 != 0 ==> keys.control < 0
    &&& mask & 2 != 0 ==> keys.menu < 0
    &&& mask & 4 != 0 ==> keys.shift < 0
    &&& mask & 8 != 0 ==> keys.left_win < 0 || keys.right_win < 0
}

/// A poll reports a press exactly when the hotkey was not down before, its key is down,
/// and so is each modifier that its mask asks for, for each of the four separately. The
/// two Windows keys, 0x5B and 0x5C, stand for one another. Bits that stand for no
/// modifier can never be held.
pub proof fn law_press_needs_its_very_keys(state: HotkeyState, keys: KeyStates)
    ensures
        capture_pressed(state, keys) == ({
            &&& !state.capture_key_was_down
            &&& if state.capture_key_code == 0x5B || state.capture_key_code == 0x5C {
                keys.left_win < 0 || keys.right_win < 0
            } else {
                keys.key < 0
            }
            &&& state.capture_modifiers <= 15
            &&& modifiers_are_held(state.capture_modifiers, keys)
        }),
{
    let control: bool = keys.control < 0;
    let menu: bool = keys.menu < 0;
    let shift: bool = keys.shift < 0;
    let win: bool = keys.left_win < 0 || keys.right_win < 0;
    let mask: u32 = state.capture_modifiers;
    let down: u32 = modifiers_down(keys);
    lemma_mask_bits(control, menu, shift, win, down, mask);
}

proof fn lemma_mask_bits(control: bool, menu: bool, shift: bool, win: bool, down: u32, mask: u32)
    requires
        down == mask_of(control, menu, shift, win),
    ensures
        (mask == 0 || down & mask == mask) == ({
            &&& mask <= 15
            &&& mask & 1 != 0 ==> control
            &&& mask & 2 != 0 ==> menu
            &&& mask & 4 != 0 ==> shift
            &&& mask & 8 != 0 ==> win
        }),
{
    assert((mask == 0 || down & mask == mask) == (mask <= 15 && (mask & 1 != 0 ==> control) && (mask
        & 2 != 0 ==> menu) && (mask & 4 != 0 ==> shift) && (mask & 8 != 0 ==> win)))
        by (bit_vector)
        requires
            down == (if control { 1u32 } else { 0u32 }) + (if menu { 2u32 } else { 0u32 }) + (
            if shift { 4u32 } else { 0u32 }) + (if win { 8u32 } else { 0u32 }),
    ;
}

/// A poll notes whether the hotkey is held, and nothing else: where it was held before
/// and is held still, no press is reported, and the next press needs that it was let go.
pub proof fn law_poll_notes_the_hotkey(state: HotkeyState, keys: KeyStates)
    ensures
        ({
            let fresh = HotkeyState { capture_key_was_down: false, ..state };
            let after = polled(state, keys);
            &&& after.capture_key_was_down == capture_pressed(fresh, keys)
            &&& after.capture_key_code == state.capture_key_code
            &&& after.capture_modifiers == state.capture_modifiers
            &&& after.clear_key_code == state.clear_key_code
            &&& after.clear_modifiers == state.clear_modifiers
            &&& !capture_pressed(after, keys)
        }),
{
}

/// A keybind that was understood is what its hotkey becomes, key and modifiers, whatever
/// the hotkey was before; one that was not leaves its hotkey alone. Neither touches the
/// other hotkey, nor what the last poll has noted.
pub proof fn law_hotkeys_become_their_keybinds(
    state: HotkeyState,
    capture: Option<(u32, u32)>,
    clear: Option<(u32, u32)>,
)
    ensures
        ({
            let after = rebound(state, capture, clear);
            &&& capture matches Some((vk, mods)) ==> after.capture_key_code == vk
                && after.capture_modifiers == mods
            &&& capture is None ==> after.capture_key_code == state.capture_key_code
                && after.capture_modifiers == state.capture_modifiers
            &&& clear matches Some((vk, mods)) ==> after.clear_key_code == vk
                && after.clear_modifiers == mods
            &&& clear is None ==> after.clear_key_code == state.clear_key_code
                && after.clear_modifiers == state.clear_modifiers
            &&& after.capture_key_was_down == state.capture_key_was_down
        }),
{
}

/// Hotkeys that were bound to the same keybinds are the same, however they differed.
pub proof fn law_keybinds_leave_nothing_of_the_old(
    one: HotkeyState,
    other: HotkeyState,
    capture: (u32, u32),
    clear: (u32, u32),
)
    requires
        one.capture_key_was_down == other.capture_key_was_down,
    ensures
        rebound(one, Some(capture), Some(clear)) == rebound(other, Some(capture), Some(clear)),
{
}

/// A press in the game leads to a capture exactly from five seconds after the last one on,
/// and before that the wait that is left makes the five seconds full; a clock that went
/// back counts as no time. Only a capture is noted, with its own time.
pub proof fn law_captures_every_five_seconds(
    last_ms: u64,
    is_running: bool,
    is_foreground: bool,
    now_ms: u64,
)
    ensures
        ({
            let outcome = press_outcome(last_ms, is_running, is_foreground, now_ms);
            let noted = last_capture_after(last_ms, is_running, is_foreground, now_ms);
            &&& outcome is Capture <==> is_running && is_foreground && now_ms >= last_ms + 5000
            &&& outcome is NotInGame <==> !is_running || !is_foreground
            &&& outcome matches HotkeyOutcome::CoolingDown { remaining_ms } ==> {
                &&& 0 < remaining_ms <= 5000
                &&& now_ms >= last_ms ==> now_ms + remaining_ms == last_ms + 5000
                &&& now_ms < last_ms ==> remaining_ms == 5000
            }
            &&& outcome is Capture ==> noted == now_ms
            &&& !(outcome is Capture) ==> noted == last_ms
        }),
{
}

} // verus!
