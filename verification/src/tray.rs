//! The icon in the tray, its menu, and what the user can ask for there.

use vstd::prelude::*;
use vstd::string::*;
use crate::link::Cmd;
use crate::text::{same_text, views};
use crate::window::wrap_u32;

verus! {

// ---------------------------------------------------------------------------
// What the user asks for
// ---------------------------------------------------------------------------

/// Something that the user asks for.
#[derive(Clone, Copy, Debug, PartialEq, Eq, Structural)]
pub enum UiEvent {
    CaptureFortnite,
    CheckFortnite,
    Quit,
    Reconnect,
    RestartApp,
    CreateShortcut,
    OpenLogs,
}

/// What is done about it.
#[derive(Clone, Copy, Debug, PartialEq, Eq, Structural)]
pub enum UiAction {
    /// Hand a command to the connection.
    Send(Cmd),
    /// Make the desktop shortcut anew.
    CreateShortcut,
    /// Open a window that follows the log.
    OpenLogs,
    /// Start the agent anew, and end this one.
    Restart,
    /// End the agent.
    Quit,
}

/// What is done about an event.
pub open spec fn ui_action(event: UiEvent) -> UiAction {
    match event {
        UiEvent::CaptureFortnite => UiAction::Send(Cmd::CaptureFortnite),
        UiEvent::CheckFortnite => UiAction::Send(Cmd::CheckFortnite),
        UiEvent::Quit => UiAction::Quit,
        UiEvent::Reconnect => UiAction::Send(Cmd::ForceReconnect),
        UiEvent::RestartApp => UiAction::Restart,
        UiEvent::CreateShortcut => UiAction::CreateShortcut,
        UiEvent::OpenLogs => UiAction::OpenLogs,
    }
}

/// Decides what is done about an event.
pub fn handle_ui_event(event: UiEvent) -> (action: UiAction)
    ensures
        action == ui_action(event),
{
    match event {
        UiEvent::CaptureFortnite => UiAction::Send(Cmd::CaptureFortnite),
        UiEvent::CheckFortnite => UiAction::Send(Cmd::CheckFortnite),
        UiEvent::Quit => UiAction::Quit,
        UiEvent::Reconnect => UiAction::Send(Cmd::ForceReconnect),
        UiEvent::RestartApp => UiAction::Restart,
        UiEvent::CreateShortcut => UiAction::CreateShortcut,
        UiEvent::OpenLogs => UiAction::OpenLogs,
    }
}

// ---------------------------------------------------------------------------
// The menu
// ---------------------------------------------------------------------------

/// An item of the menu.
#[derive(Clone, Copy, Debug, PartialEq, Eq, Structural)]
pub enum MenuChoice {
    Capture,
    Check,
    Shortcut,
    Eula,
    Logs,
    Reconnect,
    Restart,
    Quit,
}

/// A line of the menu.
#[derive(Debug)]
pub enum MenuEntry {
    Item { label: String, choice: MenuChoice },
    Separator,
}

/// The contents of a line of the menu.
pub enum EntryView {
    Item { label: Seq<char>, choice: MenuChoice },
    Separator,
}

impl View for MenuEntry {
    type V = EntryView;

    open spec fn view(&self) -> EntryView {
        match self {
            MenuEntry::Item { label, choice } => EntryView::Item { label: label@, choice: *choice },
            MenuEntry::Separator => EntryView::Separator,
        }
    }
}

/// The contents of a menu.
pub open spec fn menu_views(entries: Seq<MenuEntry>) -> Seq<EntryView> {
    entries.map_values(|e: MenuEntry| e@)
}

/// The lines of the menu, from the top.
pub open spec fn menu() -> Seq<EntryView> {
    seq![
        EntryView::Item { label: "Capture Fortnite"@, choice: MenuChoice::Capture },
        EntryView::Item { label: "Check Fortnite Status"@, choice: MenuChoice::Check },
        EntryView::Separator,
        EntryView::Item { label: "Create Desktop Shortcut"@, choice: MenuChoice::Shortcut },
        EntryView::Item { label: "EULA"@, choice: MenuChoice::Eula },
        EntryView::Item { label: "Open Logs"@, choice: MenuChoice::Logs },
        EntryView::Separator,
        EntryView::Item { label: "Force Reconnect"@, choice: MenuChoice::Reconnect },
        EntryView::Item { label: "Restart Agent"@, choice: MenuChoice::Restart },
        EntryView::Separator,
        EntryView::Item { label: "Quit"@, choice: MenuChoice::Quit },
    ]
}

fn item(label: &str, choice: MenuChoice) -> (entry: MenuEntry)
    ensures
        entry@ == (EntryView::Item { label: label@, choice }),
{
    MenuEntry::Item { label: label.to_owned(), choice }
}

/// The lines of the menu, from the top.
pub fn menu_entries() -> (entries: Vec<MenuEntry>)
    ensures
        menu_views(entries@) == menu(),
{
    let entries: Vec<MenuEntry> = vec![
        item("Capture Fortnite", MenuChoice::Capture),
        item("Check Fortnite Status", MenuChoice::Check),
        MenuEntry::Separator,
        item("Create Desktop Shortcut", MenuChoice::Shortcut),
        item("EULA", MenuChoice::Eula),
        item("Open Logs", MenuChoice::Logs),
        MenuEntry::Separator,
        item("Force Reconnect", MenuChoice::Reconnect),
        item("Restart Agent", MenuChoice::Restart),
        MenuEntry::Separator,
        item("Quit", MenuChoice::Quit),
    ];
    assert(menu_views(entries@) =~= menu());
    entries
}

/// The item that goes by an identifier: the first one in the list that does.
pub open spec fn item_named(items: Seq<(String, MenuChoice)>, id: Seq<char>) -> Option<MenuChoice>
    decreases items.len(),
{
    if items.len() == 0 {
        None
    } else if items[0].0@ == id {
        Some(items[0].1)
    } else {
        item_named(items.drop_first(), id)
    }
}

/// Finds the item that goes by an identifier.
pub fn chosen_item(items: &Vec<(String, MenuChoice)>, id: &str) -> (choice: Option<MenuChoice>)
    ensures
        choice == item_named(items@, id@),
{
    let mut i: usize = 0;
    assert(items@.skip(0) =~= items@);
    while i < items.len()
        invariant
            i <= items.len(),
            item_named(items@, id@) == item_named(items@.skip(i as int), id@),
        decreases items.len() - i,
    {
        assert(items@.skip(i as int)[0] == items@[i as int]);
        assert(items@.skip(i as int).drop_first() =~= items@.skip(i + 1));
        if same_text(items[i].0.as_str(), id) {
            return Some(items[i].1);
        }
        i += 1;
    }
    None
}

/// What an item does.
#[derive(Debug)]
pub enum MenuAction {
    /// Ask for something.
    Ask(UiEvent),
    /// Run `cmd` with these arguments.
    Run(Vec<String>),
}

/// What an item asks for; the licence is shown in the browser instead.
pub open spec fn event_of(choice: MenuChoice) -> Option<UiEvent> {
    match choice {
        MenuChoice::Capture => Some(UiEvent::CaptureFortnite),
        MenuChoice::Check => Some(UiEvent::CheckFortnite),
        MenuChoice::Shortcut => Some(UiEvent::CreateShortcut),
        MenuChoice::Eula => None,
        MenuChoice::Logs => Some(UiEvent::OpenLogs),
        MenuChoice::Reconnect => Some(UiEvent::Reconnect),
        MenuChoice::Restart => Some(UiEvent::RestartApp),
        MenuChoice::Quit => Some(UiEvent::Quit),
    }
}

/// The arguments of `cmd` that open the licence in the browser.
pub open spec fn licence_args() -> Seq<Seq<char>> {
    seq!["/C"@, "start"@, "https://dropmazter.com/eula/"@]
}

/// Decides what an item does.
pub fn choose_item(choice: MenuChoice) -> (action: MenuAction)
    ensures
        match event_of(choice) {
            Some(event) => action == MenuAction::Ask(event),
            None => action matches MenuAction::Run(args) && views(args@) == licence_args(),
        },
{
    match choice {
        MenuChoice::Capture => MenuAction::Ask(UiEvent::CaptureFortnite),
        MenuChoice::Check => MenuAction::Ask(UiEvent::CheckFortnite),
        MenuChoice::Shortcut => MenuAction::Ask(UiEvent::CreateShortcut),
        MenuChoice::Eula => {
            let args: Vec<String> = vec![
                "/C".to_owned(),
                "start".to_owned(),
                "https://dropmazter.com/eula/".to_owned(),
            ];
            assert(views(args@) =~= licence_args());
            MenuAction::Run(args)
        },
        MenuChoice::Logs => MenuAction::Ask(UiEvent::OpenLogs),
        MenuChoice::Reconnect => MenuAction::Ask(UiEvent::Reconnect),
        MenuChoice::Restart => MenuAction::Ask(UiEvent::RestartApp),
        MenuChoice::Quit => MenuAction::Ask(UiEvent::Quit),
    }
}

// ---------------------------------------------------------------------------
// The icon
// ---------------------------------------------------------------------------

/// The size of the icon where the system names none.
pub const DEFAULT_ICON_SIZE: u32 = 32;

/// The size of the icon, from the metric of the system. A negative metric counts as
/// the 32-bit pattern that it is.
pub fn icon_size(metric: i32) -> (size: u32)
    ensures
        size == (if metric == 0 {
            DEFAULT_ICON_SIZE
        } else {
            wrap_u32(metric as int)
        }),
{
    if metric == 0 {
        DEFAULT_ICON_SIZE
    } else if metric > 0 {
        metric as u32
    } else {
        (0x1_0000_0000 + metric as i64) as u32
    }
}

/// What the icon says of itself.
pub fn tooltip() -> (text: String)
    ensures
        text@ == "Dropmazter Agent v"@ + "2.3.0"@,
{
    let mut text: String = "Dropmazter Agent v".to_owned();
    text.append(crate::registry::agent_version().as_str());
    text
}

/// `image::load_from_memory` reads a picture from these bytes.
pub uninterp spec fn is_picture_file(bytes: Seq<u8>) -> bool;

/// The sizes for which the picture can be addressed on this machine, however large the
/// one is that it is made from.
pub open spec fn is_icon_size(size: u32) -> bool {
    0 < size && 0x2_0000_0000 * size <= isize::MAX && 16 * size * size <= isize::MAX
}

/// Reads a picture with `image::load_from_memory`, brings it to `size` by `size` pixels
/// with `image::DynamicImage::resize_exact` and the `Lanczos3` filter, and takes its
/// pixels with `to_rgba8`: four bytes for each. Whether there is a picture depends on
/// the bytes alone. What the pixels are is left unsaid: the filter computes with
/// floating-point numbers, to the precision of the machine. A picture that was read has
/// at most half a gigabyte, so that a row of it has less than 2^29 pixels; the filter
/// holds `size` rows of it, at sixteen bytes for a pixel, and the result.
#[verifier::external_body]
fn resized_pixels(file: &Vec<u8>, size: u32) -> (rgba: Option<Vec<u8>>)
    requires
        is_icon_size(size),
    ensures
        rgba is Some == is_picture_file(file@),
        rgba matches Some(pixels) ==> pixels@.len() == 4 * size * size,
{
    let picture = image::load_from_memory(file).ok()?;
    let resized = picture.resize_exact(size, size, image::imageops::FilterType::Lanczos3);
    Some(resized.to_rgba8().into_raw())
}

/// The pixels of an icon, four bytes for each, row by row.
#[derive(Debug)]
pub struct IconPixels {
    pub rgba: Vec<u8>,
    pub width: u32,
    pub height: u32,
}

/// The icon of this size with these pixels.
pub fn icon_of(rgba: Vec<u8>, size: u32) -> (icon: IconPixels)
    ensures
        icon.rgba@ == rgba@,
        icon.width == size,
        icon.height == size,
{
    IconPixels { rgba, width: size, height: size }
}

/// Decides whether an icon can have this size.
pub fn can_have_icon_size(size: u32) -> (r: bool)
    ensures
        r == is_icon_size(size),
{
    let limit: u128 = isize::MAX as u128;
    let side: u128 = size as u128;
    assert(16 * side * side == 16 * (side * side) && side * side <= u64::MAX) by (nonlinear_arith)
        requires
            side <= u32::MAX,
    ;
    0 < size && 0x2_0000_0000 * side <= limit && 16 * (side * side) <= limit
}

/// Makes the icon of this size from a picture file; `None` where the file holds no
/// picture.
pub fn icon_pixels(file: &Vec<u8>, size: u32) -> (icon: Option<IconPixels>)
    requires
        is_icon_size(size),
    ensures
        icon is Some == is_picture_file(file@),
        icon matches Some(icon) ==> icon.width == size && icon.height == size
            && icon.rgba@.len() == 4 * size * size,
{
    match resized_pixels(file, size) {
        Some(rgba) => Some(icon_of(rgba, size)),
        None => None,
    }
}

// ---------------------------------------------------------------------------
// Dark menus
// ---------------------------------------------------------------------------

/// How far the switch to dark menus has come.
#[derive(Clone, Copy, Debug, PartialEq, Eq, Structural)]
pub enum DarkModeEvent {
    Started,
    /// The library was loaded, or could not be.
    Loaded { found: bool },
    /// The function was found in it, or was not.
    Resolved { found: bool },
    Called,
}

/// The next step of the switch to dark menus.
#[derive(Debug)]
pub enum DarkModeAction {
    /// Load the library of this name.
    Load(String),
    /// Find the function of this number in it.
    Resolve { ordinal: u16 },
    /// Call it with this argument.
    Call { mode: i32 },
    /// That was all.
    Stop,
}

/// Menus are dark where the system is.
pub const ALLOW_DARK: i32 = 1;

/// The number of the function that sets the mode.
pub const SET_PREFERRED_APP_MODE: u16 = 135;

/// Decides the next step of the switch to dark menus. Where the system lacks what it
/// needs, it stops, and the menus stay as they are.
pub fn enable_dark_mode_menus(event: DarkModeEvent) -> (action: DarkModeAction)
    ensures
        match event {
            DarkModeEvent::Started => action matches DarkModeAction::Load(name) && name@
                == "uxtheme.dll"@,
            DarkModeEvent::Loaded { found } => action == (if found {
                DarkModeAction::Resolve { ordinal: 135 }
            } else {
                DarkModeAction::Stop
            }),
            DarkModeEvent::Resolved { found } => action == (if found {
                DarkModeAction::Call { mode: 1 }
            } else {
                DarkModeAction::Stop
            }),
            DarkModeEvent::Called => action is Stop,
        },
{
    match event {
        DarkModeEvent::Started => DarkModeAction::Load("uxtheme.dll".to_owned()),
        DarkModeEvent::Loaded { found } => {
            if found {
                DarkModeAction::Resolve { ordinal: SET_PREFERRED_APP_MODE }
            } else {
                DarkModeAction::Stop
            }
        },
        DarkModeEvent::Resolved { found } => {
            if found {
                DarkModeAction::Call { mode: ALLOW_DARK }
            } else {
                DarkModeAction::Stop
            }
        },
        DarkModeEvent::Called => DarkModeAction::Stop,
    }
}

// ---------------------------------------------------------------------------
// Laws
// ---------------------------------------------------------------------------

/// The line of the menu that offers an item.
pub open spec fn line_of(choice: MenuChoice) -> int {
    match choice {
        MenuChoice::Capture => 0,
        MenuChoice::Check => 1,
        MenuChoice::Shortcut => 3,
        MenuChoice::Eula => 4,
        MenuChoice::Logs => 5,
        MenuChoice::Reconnect => 7,
        MenuChoice::Restart => 8,
        MenuChoice::Quit => 10,
    }
}

/// The menu offers every item, and each once.
pub proof fn law_menu_offers_every_item_once(choice: MenuChoice, i: int)
    requires
        0 <= i < menu().len(),
    ensures
        (menu()[i] matches EntryView::Item { choice: c, .. } && c == choice) <==> i == line_of(
            choice,
        ),
{
}

/// Everything that the user can ask for has an item in the menu, and only one.
pub proof fn law_every_event_has_its_item(a: MenuChoice, b: MenuChoice, event: UiEvent)
    ensures
        exists|c: MenuChoice| event_of(c) == Some(event),
        event_of(a) == event_of(b) ==> a == b,
{
    let c = match event {
        UiEvent::CaptureFortnite => MenuChoice::Capture,
        UiEvent::CheckFortnite => MenuChoice::Check,
        UiEvent::Quit => MenuChoice::Quit,
        UiEvent::Reconnect => MenuChoice::Reconnect,
        UiEvent::RestartApp => MenuChoice::Restart,
        UiEvent::CreateShortcut => MenuChoice::Shortcut,
        UiEvent::OpenLogs => MenuChoice::Logs,
    };
    assert(event_of(c) == Some(event));
}

/// Among items with different identifiers, each is found by its own.
pub proof fn law_items_are_found_by_their_identifiers(items: Seq<(String, MenuChoice)>, i: int)
    requires
        0 <= i < items.len(),
        forall|j: int, k: int|
            0 <= j < k < items.len() ==> (#[trigger] items[j]).0@ != (#[trigger] items[k]).0@,
    ensures
        item_named(items, items[i].0@) == Some(items[i].1),
    decreases items.len(),
{
    if i > 0 {
        assert(items[0].0@ != items[i].0@);
        let rest = items.drop_first();
        assert forall|j: int, k: int| 0 <= j < k < rest.len() implies (#[trigger] rest[j]).0@ != (
        #[trigger] rest[k]).0@ by {
            assert(items[j + 1].0@ != items[k + 1].0@);
        }
        law_items_are_found_by_their_identifiers(rest, i - 1);
    }
}

/// An identifier that no item has finds nothing; what is found has the identifier, and no
/// item before it does.
pub proof fn law_only_known_identifiers_are_found(items: Seq<(String, MenuChoice)>, id: Seq<char>)
    ensures
        item_named(items, id) is None <==> forall|j: int|
            0 <= j < items.len() ==> (#[trigger] items[j]).0@ != id,
        item_named(items, id) matches Some(choice) ==> exists|i: int|
            0 <= i < items.len() && (#[trigger] items[i]).0@ == id && items[i].1 == choice && forall|
                j: int,
            |
                0 <= j < i ==> (#[trigger] items[j]).0@ != id,
    decreases items.len(),
{
    if items.len() > 0 && items[0].0@ != id {
        let rest = items.drop_first();
        law_only_known_identifiers_are_found(rest, id);
        if item_named(items, id) is None {
            assert forall|j: int| 0 <= j < items.len() implies (#[trigger] items[j]).0@ != id by {
                if j > 0 {
                    assert(rest[j - 1].0@ != id);
                }
            }
        } else {
            let k = choose|i: int|
                0 <= i < rest.len() && (#[trigger] rest[i]).0@ == id && rest[i].1 == item_named(
                    items,
                    id,
                )->0 && forall|j: int| 0 <= j < i ==> (#[trigger] rest[j]).0@ != id;
            assert(items[k + 1].0@ == id);
            assert forall|j: int| 0 <= j < k + 1 implies (#[trigger] items[j]).0@ != id by {
                if j > 0 {
                    assert(rest[j - 1].0@ != id);
                }
            }
        }
    }
}

/// What the items do in the end: three of them command the link, and the others stay
/// with the program.
pub proof fn law_items_do_what_they_say()
    ensures
        event_of(MenuChoice::Capture) matches Some(e) && ui_action(e) == UiAction::Send(
            Cmd::CaptureFortnite,
        ),
        event_of(MenuChoice::Check) matches Some(e) && ui_action(e) == UiAction::Send(
            Cmd::CheckFortnite,
        ),
        event_of(MenuChoice::Reconnect) matches Some(e) && ui_action(e) == UiAction::Send(
            Cmd::ForceReconnect,
        ),
        event_of(MenuChoice::Shortcut) matches Some(e) && ui_action(e) is CreateShortcut,
        event_of(MenuChoice::Logs) matches Some(e) && ui_action(e) is OpenLogs,
        event_of(MenuChoice::Restart) matches Some(e) && ui_action(e) is Restart,
        event_of(MenuChoice::Quit) matches Some(e) && ui_action(e) is Quit,
{
}

/// Where sizes have 64 bits, the icon can have any size from one to 2^29 pixels a side.
pub proof fn law_icons_of_all_usual_sizes(size: u32)
    requires
        isize::MAX == 0x7FFF_FFFF_FFFF_FFFF,
        1 <= size <= 0x2000_0000,
    ensures
        is_icon_size(size),
{
    assert(16 * size * size <= 16 * 0x2000_0000 * 0x2000_0000) by (nonlinear_arith)
        requires
            1 <= size <= 0x2000_0000,
    ;
}

} // verus!
