//! Telling the game window from the other windows on the desktop.

use vstd::prelude::*;
use vstd::string::*;
use vstd::utf8::is_ascii_chars;
use crate::paths::text_of;
use crate::text::{
    ascii_lowercase, contains_text, decimal, decimal_text, decode_utf16, occurs_in, same_text,
    signed_decimal, signed_decimal_text, to_lowercase, trim, trimmed, unicode_lowercase,
    utf16_lossy, views,
};

verus! {

/// The edges of a window on the screen.
#[derive(Clone, Copy, Debug, PartialEq, Eq, Structural)]
pub struct Rect {
    pub left: i32,
    pub top: i32,
    pub right: i32,
    pub bottom: i32,
}

/// What the system says of one top-level window.
#[derive(Clone, Debug)]
pub struct WindowInfo {
    pub handle: isize,
    pub visible: bool,
    /// The title, in UTF-16.
    pub title: Vec<u16>,
    /// The process that the window belongs to, 0 where it is not known.
    pub process_id: u32,
    /// The base name of the process, in UTF-16; `None` or empty where the system would
    /// not tell, as for a process under anti-cheat protection.
    pub process_name: Option<Vec<u16>>,
    pub rect: Option<Rect>,
}

/// The game window: its handle and its size.
#[derive(Clone, Copy, Debug, PartialEq, Eq, Structural)]
pub struct FoundWindow {
    pub handle: isize,
    pub width: u32,
    pub height: u32,
}

/// A game window is wider than this; the launcher is not.
pub const MIN_GAME_WIDTH: u32 = 640;

/// A game window is higher than this; the launcher is not.
pub const MIN_GAME_HEIGHT: u32 = 480;

// ---------------------------------------------------------------------------
// Sizes
// ---------------------------------------------------------------------------

/// `n` as a 32-bit number without a sign, modulo 2^32.
pub open spec fn wrap_u32(n: int) -> u32 {
    (n % 0x1_0000_0000) as u32
}

/// `n` as a 32-bit number with a sign, in two's complement.
pub open spec fn wrap_i32(n: int) -> i32 {
    if n % 0x1_0000_0000 < 0x8000_0000 {
        (n % 0x1_0000_0000) as i32
    } else {
        (n % 0x1_0000_0000 - 0x1_0000_0000) as i32
    }
}

/// The width of a rectangle, in pixels.
pub open spec fn width(rect: Rect) -> u32 {
    wrap_u32(rect.right - rect.left)
}

/// The height of a rectangle, in pixels.
pub open spec fn height(rect: Rect) -> u32 {
    wrap_u32(rect.bottom - rect.top)
}

/// The distance from `from` to `to`, modulo 2^32.
pub fn span(from: i32, to: i32) -> (r: u32)
    ensures
        r == wrap_u32(to - from),
{
    let d: i64 = to as i64 - from as i64;
    if d < 0 {
        (d + 0x1_0000_0000) as u32
    } else {
        d as u32
    }
}

/// The distance from `from` to `to`, in two's complement.
pub fn signed_span(from: i32, to: i32) -> (r: i32)
    ensures
        r == wrap_i32(to - from),
{
    let d: i64 = to as i64 - from as i64;
    if d < -0x8000_0000 {
        (d + 0x1_0000_0000) as i32
    } else if d >= 0x8000_0000 {
        (d - 0x1_0000_0000) as i32
    } else {
        d as i32
    }
}

// ---------------------------------------------------------------------------
// Which windows belong to the game
// ---------------------------------------------------------------------------

/// The title of a window, without white space around it.
pub open spec fn title_text(w: WindowInfo) -> Seq<char> {
    trimmed(utf16_lossy(w.title@))
}

/// The process name of a window, where it is known.
pub open spec fn process_text(w: WindowInfo) -> Option<Seq<char>> {
    match w.process_name {
        Some(units) => if units@.len() > 0 {
            Some(utf16_lossy(units@))
        } else {
            None
        },
        None => None,
    }
}

/// Reads the process name of a window.
pub fn process_name_of(w: &WindowInfo) -> (name: Option<String>)
    ensures
        text_of(name) == process_text(*w),
{
    match &w.process_name {
        Some(units) => {
            if units.len() > 0 {
                Some(decode_utf16(units))
            } else {
                None
            }
        },
        None => None,
    }
}

/// The process name of a window in lower case.
pub open spec fn process_lower(w: WindowInfo) -> Option<Seq<char>> {
    match process_text(w) {
        Some(name) => Some(unicode_lowercase(name)),
        None => None,
    }
}

/// The process name of a window in lower case, where it is of ASCII characters.
pub open spec fn ascii_process_lower(w: WindowInfo) -> Option<Seq<char>> {
    match process_text(w) {
        Some(name) => Some(ascii_lowercase(name)),
        None => None,
    }
}

/// The process name, where there is one, is of ASCII characters.
pub open spec fn ascii_process(w: WindowInfo) -> bool {
    process_text(w) matches Some(name) ==> is_ascii_chars(name)
}

/// A process name in lower case and a title that show the game: the process is named
/// after it, or the title is exactly its name.
pub open spec fn shows_game(process_lower: Option<Seq<char>>, title: Seq<char>) -> bool {
    ||| process_lower matches Some(name) && occurs_in(name, "fortnite"@)
    ||| title == "Fortnite"@
}

/// A process name in lower case and a title that are those of a game window: the
/// process is named after the game. Only where its name is not known, as under
/// anti-cheat protection, the title decides; it is then exactly the name of the game.
pub open spec fn is_game_window(process_lower: Option<Seq<char>>, title: Seq<char>) -> bool {
    match process_lower {
        Some(name) => occurs_in(name, "fortnite"@),
        None => title == "Fortnite"@,
    }
}

/// Decides from a process name in lower case and a title whether they show the game.
pub fn is_game(process_lower: &Option<String>, title: &str) -> (r: bool)
    ensures
        r == shows_game(text_of(*process_lower), title@),
{
    if let Some(name) = process_lower {
        if contains_text(name.as_str(), "fortnite") {
            return true;
        }
    }
    same_text(title, "Fortnite")
}

/// Decides from a process name in lower case and a title whether they are those of a
/// game window.
pub fn recognise_game(process_lower: &Option<String>, title: &str) -> (r: bool)
    ensures
        r == is_game_window(text_of(*process_lower), title@),
{
    match process_lower {
        Some(name) => contains_text(name.as_str(), "fortnite"),
        None => same_text(title, "Fortnite"),
    }
}

/// Reads the process name of a window in lower case.
pub fn lower_process_name_of(w: &WindowInfo) -> (name: Option<String>)
    ensures
        text_of(name) == process_lower(*w),
        ascii_process(*w) ==> text_of(name) == ascii_process_lower(*w),
{
    match process_name_of(w) {
        Some(name) => Some(to_lowercase(name.as_str())),
        None => None,
    }
}

// ---------------------------------------------------------------------------
// Finding the game window
// ---------------------------------------------------------------------------

/// The size of a window where it is large enough for the game.
pub open spec fn game_size(rect: Option<Rect>) -> Option<(u32, u32)> {
    match rect {
        Some(r) => if width(r) > MIN_GAME_WIDTH && height(r) > MIN_GAME_HEIGHT {
            Some((width(r), height(r)))
        } else {
            None
        },
        None => None,
    }
}

/// The game window, if `w` is it, given its process name in lower case.
pub open spec fn found_in(w: WindowInfo, process_lower: Option<Seq<char>>) -> Option<FoundWindow> {
    if w.visible && title_text(w).len() > 0 && w.process_id != 0 && is_game_window(
        process_lower,
        title_text(w),
    ) {
        match game_size(w.rect) {
            Some((width, height)) => Some(FoundWindow { handle: w.handle, width, height }),
            None => None,
        }
    } else {
        None
    }
}

/// The game window, if `w` is it.
pub open spec fn found(w: WindowInfo) -> Option<FoundWindow> {
    found_in(w, process_lower(w))
}

/// Decides whether a window is the game window.
pub fn inspect_window(w: &WindowInfo) -> (r: Option<FoundWindow>)
    ensures
        r == found(*w),
        ascii_process(*w) ==> r == found_in(*w, ascii_process_lower(*w)),
{
    if !w.visible {
        return None;
    }
    let title: String = trim(decode_utf16(&w.title).as_str());
    if title.as_str().is_empty() {
        return None;
    }
    if w.process_id == 0 {
        return None;
    }
    if !recognise_game(&lower_process_name_of(w), title.as_str()) {
        return None;
    }
    match w.rect {
        Some(rect) => {
            let width: u32 = span(rect.left, rect.right);
            let height: u32 = span(rect.top, rect.bottom);
            if width > MIN_GAME_WIDTH && height > MIN_GAME_HEIGHT {
                Some(FoundWindow { handle: w.handle, width, height })
            } else {
                None
            }
        },
        None => None,
    }
}

/// The first window in a list that is the game window.
pub open spec fn first_found(windows: Seq<WindowInfo>) -> Option<FoundWindow>
    decreases windows.len(),
{
    if windows.len() == 0 {
        None
    } else if found(windows[0]) is Some {
        found(windows[0])
    } else {
        first_found(windows.skip(1))
    }
}

/// The same, where the process names are of ASCII characters.
pub open spec fn ascii_first_found(windows: Seq<WindowInfo>) -> Option<FoundWindow>
    decreases windows.len(),
{
    if windows.len() == 0 {
        None
    } else if found_in(windows[0], ascii_process_lower(windows[0])) is Some {
        found_in(windows[0], ascii_process_lower(windows[0]))
    } else {
        ascii_first_found(windows.skip(1))
    }
}

/// Finds the game window among the top-level windows, in the order in which the
/// system lists them.
pub fn find_fortnite_window(windows: &Vec<WindowInfo>) -> (r: Option<FoundWindow>)
    ensures
        r == first_found(windows@),
        (forall|i: int| 0 <= i < windows@.len() ==> ascii_process(#[trigger] windows@[i])) ==> r
            == ascii_first_found(windows@),
{
    let ghost all_ascii = forall|i: int|
        0 <= i < windows@.len() ==> ascii_process(#[trigger] windows@[i]);
    let mut i: usize = 0;
    assert(windows@.skip(0) == windows@);
    while i < windows.len()
        invariant
            i <= windows@.len(),
            all_ascii == forall|i: int|
                0 <= i < windows@.len() ==> ascii_process(#[trigger] windows@[i]),
            first_found(windows@) == first_found(windows@.skip(i as int)),
            all_ascii ==> ascii_first_found(windows@) == ascii_first_found(windows@.skip(i as int)),
        decreases windows@.len() - i,
    {
        let r: Option<FoundWindow> = inspect_window(&windows[i]);
        assert(windows@.skip(i as int)[0] == windows@[i as int]);
        assert(windows@.skip(i as int).skip(1) == windows@.skip(i + 1));
        if r.is_some() {
            return r;
        }
        i = i + 1;
    }
    None
}

/// Decides whether the window in front, if there is one, belongs to the game.
pub fn is_fortnite_foreground(foreground: &Option<WindowInfo>) -> (r: bool)
    ensures
        r == match foreground {
            Some(w) => w.process_id != 0 && shows_game(process_lower(*w), title_text(*w)),
            None => false,
        },
        foreground matches Some(w) ==> (ascii_process(*w) ==> r == (w.process_id != 0 && shows_game(
            ascii_process_lower(*w),
            title_text(*w),
        ))),
{
    match foreground {
        Some(w) => {
            if w.process_id == 0 {
                return false;
            }
            let title: String = trim(decode_utf16(&w.title).as_str());
            is_game(&lower_process_name_of(w), title.as_str())
        },
        None => false,
    }
}

// ---------------------------------------------------------------------------
// Listing windows
// ---------------------------------------------------------------------------

/// How a listing calls the process of a window.
pub open spec fn process_label(w: WindowInfo) -> Seq<char> {
    if w.process_id == 0 {
        "Unknown"@
    } else {
        match process_text(w) {
            Some(name) => name,
            None => "PID:"@ + decimal(w.process_id as nat),
        }
    }
}

/// The line for a window in a listing: windows large enough for a game have one.
pub open spec fn listing_line(w: WindowInfo) -> Option<Seq<char>> {
    match w.rect {
        Some(r) => {
            let across = wrap_i32(r.right - r.left);
            let down = wrap_i32(r.bottom - r.top);
            if w.visible && w.title@.len() > 0 && across > MIN_GAME_WIDTH && down
                > MIN_GAME_HEIGHT {
                Some(
                    process_label(w) + " | "@ + signed_decimal(across as int) + "x"@
                        + signed_decimal(down as int) + " | "@ + utf16_lossy(w.title@),
                )
            } else {
                None
            }
        },
        None => None,
    }
}

/// The lines of a listing, in the order of the windows.
pub open spec fn listing(windows: Seq<WindowInfo>) -> Seq<Seq<char>>
    decreases windows.len(),
{
    if windows.len() == 0 {
        Seq::empty()
    } else {
        let before = listing(windows.drop_last());
        match listing_line(windows.last()) {
            Some(line) => before.push(line),
            None => before,
        }
    }
}

fn write_process_label(w: &WindowInfo) -> (label: String)
    ensures
        label@ == process_label(*w),
{
    if w.process_id == 0 {
        return "Unknown".to_owned();
    }
    match process_name_of(w) {
        Some(name) => name,
        None => {
            let mut label: String = "PID:".to_owned();
            label.append(decimal_text(w.process_id as u128).as_str());
            label
        },
    }
}

fn write_listing_line(w: &WindowInfo) -> (line: Option<String>)
    ensures
        line is Some == listing_line(*w) is Some,
        line matches Some(text) ==> text@ == listing_line(*w)->0,
{
    if !w.visible || w.title.len() == 0 {
        return None;
    }
    match w.rect {
        Some(r) => {
            let across: i32 = signed_span(r.left, r.right);
            let down: i32 = signed_span(r.top, r.bottom);
            if across > MIN_GAME_WIDTH as i32 && down > MIN_GAME_HEIGHT as i32 {
                let mut line: String = write_process_label(w);
                line.append(" | ");
                line.append(signed_decimal_text(across as i128).as_str());
                line.append("x");
                line.append(signed_decimal_text(down as i128).as_str());
                line.append(" | ");
                line.append(decode_utf16(&w.title).as_str());
                Some(line)
            } else {
                None
            }
        },
        None => None,
    }
}

/// Lists the visible windows that might be games: process, size and title of each.
pub fn debug_list_windows(windows: &Vec<WindowInfo>) -> (lines: Vec<String>)
    ensures
        views(lines@) == listing(windows@),
{
    let mut lines: Vec<String> = Vec::new();
    let mut i: usize = 0;
    assert(views(lines@) =~= listing(windows@.take(0)));
    while i < windows.len()
        invariant
            i <= windows@.len(),
            views(lines@) == listing(windows@.take(i as int)),
        decreases windows@.len() - i,
    {
        let ghost before = views(lines@);
        assert(windows@.take(i + 1).drop_last() == windows@.take(i as int));
        assert(windows@.take(i + 1).last() == windows@[i as int]);
        if let Some(line) = write_listing_line(&windows[i]) {
            let ghost text = line@;
            lines.push(line);
            assert(views(lines@) =~= before.push(text));
        }
        i = i + 1;
    }
    assert(windows@.take(i as int) == windows@);
    lines
}

// ---------------------------------------------------------------------------
// Laws
// ---------------------------------------------------------------------------

/// Once a list holds the game window, windows after it make no difference: an
/// enumeration may stop at the first window that `inspect_window` accepts.
pub proof fn law_enumeration_may_stop(seen: Seq<WindowInfo>, rest: Seq<WindowInfo>)
    requires
        first_found(seen) is Some,
    ensures
        first_found(seen + rest) == first_found(seen),
    decreases seen.len(),
{
    if found(seen[0]) is None {
        law_enumeration_may_stop(seen.skip(1), rest);
        assert((seen + rest).skip(1) == seen.skip(1) + rest);
    }
    assert((seen + rest)[0] == seen[0]);
}

/// A window is found exactly when the list holds one, and it is the first.
pub proof fn law_first_game_window_is_found(windows: Seq<WindowInfo>)
    ensures
        first_found(windows) is None <==> (forall|i: int|
            0 <= i < windows.len() ==> found(#[trigger] windows[i]) is None),
        first_found(windows) is Some ==> exists|i: int|
            {
                &&& 0 <= i < windows.len()
                &&& found(#[trigger] windows[i]) == first_found(windows)
                &&& forall|j: int| 0 <= j < i ==> found(#[trigger] windows[j]) is None
            },
    decreases windows.len(),
{
    if windows.len() > 0 {
        let rest = windows.skip(1);
        law_first_game_window_is_found(rest);
        assert(forall|j: int| 0 <= j < rest.len() ==> #[trigger] rest[j] == windows[j + 1]);
        if found(windows[0]) is Some {
            assert(found(windows[0]) == first_found(windows));
        } else if first_found(rest) is None {
            assert forall|i: int| 0 <= i < windows.len() implies found(
                #[trigger] windows[i],
            ) is None by {
                if i > 0 {
                    assert(rest[i - 1] == windows[i]);
                }
            }
        } else {
            let k = choose|i: int|
                {
                    &&& 0 <= i < rest.len()
                    &&& found(#[trigger] rest[i]) == first_found(rest)
                    &&& forall|j: int| 0 <= j < i ==> found(#[trigger] rest[j]) is None
                };
            assert(found(windows[k + 1]) == first_found(windows));
            assert forall|j: int| 0 <= j < k + 1 implies found(#[trigger] windows[j]) is None by {
                if j > 0 {
                    assert(rest[j - 1] == windows[j]);
                }
            }
        }
    }
}

/// The window that is found is larger than the launcher.
pub proof fn law_found_window_is_large(windows: Seq<WindowInfo>)
    ensures
        first_found(windows) matches Some(w) ==> w.width > MIN_GAME_WIDTH && w.height
            > MIN_GAME_HEIGHT,
    decreases windows.len(),
{
    if windows.len() > 0 {
        law_found_window_is_large(windows.skip(1));
    }
}

/// Where the process name of a window is known, the name alone decides: whatever its
/// title, a window of another program is never found.
pub proof fn law_known_process_names_decide(w: WindowInfo)
    requires
        process_lower(w) matches Some(name) && !occurs_in(name, "fortnite"@),
    ensures
        found(w) is None,
{
}

/// A number in the range of 32 bits stays what it is, and numbers that differ by 2^32
/// become the same.
pub proof fn law_wrapping_keeps_what_fits(n: int)
    ensures
        0 <= n <= u32::MAX ==> wrap_u32(n) == n,
        i32::MIN <= n <= i32::MAX ==> wrap_i32(n) == n,
        wrap_u32(n + 0x1_0000_0000) == wrap_u32(n),
        wrap_i32(n + 0x1_0000_0000) == wrap_i32(n),
        wrap_u32(n) as int % 0x1_0000_0000 == n % 0x1_0000_0000,
        wrap_i32(n) as int % 0x1_0000_0000 == n % 0x1_0000_0000,
{
}

/// What the system says of a window is that of a game window: it can be seen, its title is
/// not blank, it belongs to a process, and the name of that process speaks of the game or,
/// where there is no name, the title is that of the game.
pub open spec fn has_marks_of_game(w: WindowInfo) -> bool {
    &&& w.visible
    &&& trimmed(utf16_lossy(w.title@)) != Seq::<char>::empty()
    &&& w.process_id != 0
    &&& match w.process_name {
        Some(units) => if units@.len() == 0 {
            trimmed(utf16_lossy(w.title@)) == "Fortnite"@
        } else {
            occurs_in(unicode_lowercase(utf16_lossy(units@)), "fortnite"@)
        },
        None => trimmed(utf16_lossy(w.title@)) == "Fortnite"@,
    }
}

/// Every game window is found, however large it is: one with the marks of the game, wider
/// than 640 and higher than 480 pixels, and with its own handle, width and height.
pub proof fn law_every_game_window_is_found(w: WindowInfo, rect: Rect)
    requires
        has_marks_of_game(w),
        w.rect == Some(rect),
        640 < rect.right - rect.left <= u32::MAX,
        480 < rect.bottom - rect.top <= u32::MAX,
    ensures
        found(w) matches Some(f) && f.handle == w.handle && f.width == rect.right - rect.left
            && f.height == rect.bottom - rect.top,
{
    if title_text(w).len() == 0 {
        assert(title_text(w) =~= Seq::<char>::empty());
    }
}

/// Nothing else is found: a window that is found has the marks of the game, and it is
/// wider than 640 and higher than 480 pixels, unless its edges are the wrong way round.
pub proof fn law_only_game_windows_are_found(w: WindowInfo)
    requires
        found(w) is Some,
    ensures
        has_marks_of_game(w),
        w.rect matches Some(rect) && {
            &&& rect.left <= rect.right ==> rect.right - rect.left > 640
            &&& rect.top <= rect.bottom ==> rect.bottom - rect.top > 480
        },
{
    assert(title_text(w) != Seq::<char>::empty());
}

/// Among any other windows the game window is found: where all those before it lack the
/// marks of the game, it is the one.
pub proof fn law_game_window_is_found_among_others(
    before: Seq<WindowInfo>,
    w: WindowInfo,
    after: Seq<WindowInfo>,
    rect: Rect,
)
    requires
        forall|i: int| 0 <= i < before.len() ==> !has_marks_of_game(#[trigger] before[i]),
        has_marks_of_game(w),
        w.rect == Some(rect),
        640 < rect.right - rect.left <= u32::MAX,
        480 < rect.bottom - rect.top <= u32::MAX,
    ensures
        first_found(before + seq![w] + after) matches Some(f) && f.handle == w.handle && f.width
            == rect.right - rect.left && f.height == rect.bottom - rect.top,
    decreases before.len(),
{
    let all = before + seq![w] + after;
    law_every_game_window_is_found(w, rect);
    if before.len() == 0 {
        assert(all[0] == w);
    } else {
        assert(all[0] == before[0]);
        if found(before[0]) is Some {
            law_only_game_windows_are_found(before[0]);
        }
        let rest = before.skip(1);
        assert forall|i: int| 0 <= i < rest.len() implies !has_marks_of_game(
            #[trigger] rest[i],
        ) by {
            assert(rest[i] == before[i + 1]);
        }
        assert(all.skip(1) =~= rest + seq![w] + after);
        law_game_window_is_found_among_others(rest, w, after, rect);
    }
}

/// The window in front belongs to the game where its process is known by a number, and
/// either the name of the process speaks of the game or the title is that of the game.
pub proof fn law_foreground_by_name_or_title(w: WindowInfo)
    ensures
        shows_game(process_lower(w), title_text(w)) <==> {
            ||| trimmed(utf16_lossy(w.title@)) == "Fortnite"@
            ||| w.process_name matches Some(units) && units@.len() > 0 && occurs_in(
                unicode_lowercase(utf16_lossy(units@)),
                "fortnite"@,
            )
        },
{
}

/// A listing tells of a visible window with a title that is wider than 640 and higher than
/// 480 pixels: first who it belongs to, then its size, and last its title.
pub proof fn law_listing_tells_of_large_windows(w: WindowInfo, rect: Rect)
    requires
        w.rect == Some(rect),
        i32::MIN <= rect.right - rect.left <= i32::MAX,
        i32::MIN <= rect.bottom - rect.top <= i32::MAX,
    ensures
        ({
            let across = rect.right - rect.left;
            let down = rect.bottom - rect.top;
            let middle = " | "@ + signed_decimal(across) + "x"@ + signed_decimal(down) + " | "@;
            &&& listing_line(w) is Some <==> w.visible && w.title@.len() > 0 && across > 640 && down
                > 480
            &&& listing_line(w) matches Some(line) ==> {
                ||| w.process_id == 0 && line == "Unknown"@ + middle + utf16_lossy(w.title@)
                ||| w.process_id != 0 && (w.process_name matches Some(units) && units@.len() > 0
                    && line == utf16_lossy(units@) + middle + utf16_lossy(w.title@))
                ||| w.process_id != 0 && !(w.process_name matches Some(units) && units@.len() > 0)
                    && line == "PID:"@ + decimal(w.process_id as nat) + middle + utf16_lossy(
                    w.title@,
                )
            }
        }),
{
    let across = rect.right - rect.left;
    let down = rect.bottom - rect.top;
    let middle = " | "@ + signed_decimal(across) + "x"@ + signed_decimal(down) + " | "@;
    if let Some(line) = listing_line(w) {
        assert(line =~= process_label(w) + middle + utf16_lossy(w.title@));
    }
}

/// A listing has the lines of its windows, in their order, and no others.
pub proof fn law_listing_goes_window_by_window(before: Seq<WindowInfo>, w: WindowInfo)
    ensures
        listing(Seq::<WindowInfo>::empty()) == Seq::<Seq<char>>::empty(),
        listing(before.push(w)) == (match listing_line(w) {
            Some(line) => listing(before) + seq![line],
            None => listing(before),
        }),
{
    assert(before.push(w).drop_last() =~= before);
    if let Some(line) = listing_line(w) {
        assert(listing(before).push(line) =~= listing(before) + seq![line]);
    }
}

} // verus!
