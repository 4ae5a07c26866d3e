//! Capturing a region of the game window: which step of the capture comes next.
//!
//! The window is printed into a bitmap; where that fails, or comes out black, the
//! screen is copied instead. Only the pixels of the region are kept, and only they are
//! copied from the screen. Every device context and bitmap that a step obtains is
//! given back before the capture is done.

use vstd::prelude::*;
use crate::pixels::{
    bgra_to_rgba, crop, cropped, is_mostly_black, law_region_keeps_its_pixels, mostly_black, reordered,
};
use crate::window::{MIN_GAME_HEIGHT, MIN_GAME_WIDTH, Rect, signed_span, wrap_i32};

verus! {

// ---------------------------------------------------------------------------
// The states of a capture
// ---------------------------------------------------------------------------

/// A part of a window, by its corner within the window and its size.
#[derive(Clone, Copy, Debug, PartialEq, Eq, Structural)]
pub struct Region {
    pub x: i32,
    pub y: i32,
    pub width: i32,
    pub height: i32,
}

/// What is being captured.
#[derive(Clone, Copy, Debug, PartialEq, Eq, Structural)]
pub enum Attempt {
    /// The window itself, whatever lies over it.
    Window,
    /// The part of the screen where the window is.
    Screen,
}

/// The action whose reply a capture waits for.
#[derive(Clone, Copy, Debug, PartialEq, Eq, Structural)]
pub enum CaptureStep {
    Window,
    Visible,
    Rect,
    WindowDc,
    ScreenDc,
    MemoryDc,
    Bitmap,
    Selection,
    PrintFull,
    PrintPlain,
    Copy,
    /// The screen context was given back; whether the copy had succeeded.
    ScreenReturned { copied: bool },
    Pixels,
    /// Something was given back; more may have to be.
    Release,
    Finished,
}

/// What the capture holds of the graphics system.
#[derive(Clone, Copy, Debug, PartialEq, Eq, Structural)]
pub struct Held {
    pub window_dc: bool,
    pub screen_dc: bool,
    pub memory_dc: bool,
    pub bitmap: bool,
    /// The bitmap is selected into the memory context.
    pub selected: bool,
}

/// The state of a capture, but for its pixels.
#[derive(Clone, Copy, Debug, PartialEq, Eq, Structural)]
pub struct CaptureState {
    pub step: CaptureStep,
    pub attempt: Attempt,
    /// The part of the window that is wanted.
    pub region: Region,
    pub rect: Rect,
    pub held: Held,
}

/// A capture in progress.
#[derive(Debug)]
pub struct CaptureSession {
    pub state: CaptureState,
    /// The pixels of the region that were read, as BGRA.
    pub pixels: Option<Vec<u8>>,
}

/// What the capture asks for next.
#[derive(Clone, Copy, Debug, PartialEq, Eq, Structural)]
pub enum CaptureAction {
    /// Say whether the window handle is still valid.
    CheckWindow,
    /// Say whether the window is visible.
    CheckVisible,
    /// Say where the window is.
    QueryRect,
    /// Get a context of the window.
    GetWindowDc,
    /// Get a context of the whole screen.
    GetScreenDc,
    /// Create a memory context that is compatible with the one of the attempt.
    CreateMemoryDc { attempt: Attempt },
    /// Create a bitmap that is compatible with the context of the attempt.
    CreateBitmap { attempt: Attempt, width: i32, height: i32 },
    /// Select the bitmap into the memory context.
    SelectBitmap,
    /// Print the window into the memory context.
    PrintWindow { flags: u32 },
    /// Copy a part of the screen, from its corner at `x` and `y`, to `to_x` and `to_y` in
    /// the memory context.
    CopyScreen { to_x: i32, to_y: i32, x: i32, y: i32, width: i32, height: i32 },
    /// Read the pixels of the bitmap, top row first, four bytes each.
    ReadPixels { width: i32, height: i32 },
    /// Select what was selected into the memory context before.
    RestoreSelection,
    DeleteBitmap,
    DeleteMemoryDc,
    ReleaseWindowDc,
    ReleaseScreenDc,
    /// The capture is over.
    Done,
}

/// What came of an action.
#[derive(Debug)]
pub enum CaptureReply {
    /// The answer is yes, or the action succeeded.
    Yes,
    /// The answer is no, or the action failed. Also for an action that has no result.
    No,
    /// Where the window is.
    At(Rect),
    /// The pixels, as BGRA.
    Pixels(Vec<u8>),
}

/// The contents of a reply.
pub enum ReplyView {
    Yes,
    No,
    At(Rect),
    Pixels(Seq<u8>),
}

impl View for CaptureReply {
    type V = ReplyView;

    open spec fn view(&self) -> ReplyView {
        match self {
            CaptureReply::Yes => ReplyView::Yes,
            CaptureReply::No => ReplyView::No,
            CaptureReply::At(rect) => ReplyView::At(*rect),
            CaptureReply::Pixels(pixels) => ReplyView::Pixels(pixels@),
        }
    }
}

/// A captured picture, as RGBA.
#[derive(Debug)]
pub struct Screenshot {
    pub width: u32,
    pub height: u32,
    pub rgba: Vec<u8>,
}

/// A picture has four bytes for each of its pixels.
pub open spec fn is_picture(shot: Screenshot) -> bool {
    shot.rgba@.len() == 4 * shot.width * shot.height
}

/// The flag of `PrintWindow` that has the graphics card draw the whole window.
pub const PW_RENDERFULLCONTENT: u32 = 2;

// ---------------------------------------------------------------------------
// Sizes
// ---------------------------------------------------------------------------

/// The width of the window that is being captured.
pub open spec fn across(rect: Rect) -> i32 {
    wrap_i32(rect.right - rect.left)
}

/// The height of the window that is being captured.
pub open spec fn down(rect: Rect) -> i32 {
    wrap_i32(rect.bottom - rect.top)
}

/// The region lies within the window, and does not fill it.
pub open spec fn is_inside(region: Region, rect: Rect) -> bool {
    &&& 0 <= region.x
    &&& 0 <= region.y
    &&& 0 < region.width
    &&& 0 < region.height
    &&& region.x + region.width <= across(rect)
    &&& region.y + region.height <= down(rect)
    &&& region.width * region.height < across(rect) * down(rect)
}

/// The region that is read from a window of this size: half of it each way, in the
/// middle.
pub open spec fn region_of(width: u32, height: u32) -> Region {
    Region {
        x: (width / 4) as i32,
        y: (height / 4) as i32,
        width: (width / 2) as i32,
        height: (height / 2) as i32,
    }
}

/// Picks the region that is read from a window of this size.
pub fn reading_region(width: u32, height: u32) -> (region: Region)
    ensures
        region == region_of(width, height),
{
    Region {
        x: (width / 4) as i32,
        y: (height / 4) as i32,
        width: (width / 2) as i32,
        height: (height / 2) as i32,
    }
}

/// The window has an area.
pub open spec fn has_area(rect: Rect) -> bool {
    across(rect) > 0 && down(rect) > 0
}

/// The bytes of the pixels of a window can be counted in 32 bits.
pub open spec fn is_countable(rect: Rect) -> bool {
    has_area(rect) ==> 4 * across(rect) * down(rect) <= i32::MAX
}

/// A reply that the capture can take: where it gives a window, the bytes of its
/// pixels can be counted.
pub open spec fn is_acceptable(reply: ReplyView) -> bool {
    reply matches ReplyView::At(rect) ==> is_countable(rect)
}

/// The state of a capture is sound: it holds what its step calls for, and once the
/// window has been measured, it has an area whose bytes can be counted, and the region
/// lies within it.
pub open spec fn is_sound(state: CaptureState, pixels: Option<Seq<u8>>) -> bool {
    &&& match state.step {
        CaptureStep::Window | CaptureStep::Visible | CaptureStep::Rect => pixels is None,
        CaptureStep::Release | CaptureStep::Finished => pixels is Some ==> is_measured(state),
        _ => is_measured(state),
    }
    &&& pixels matches Some(p) ==> p.len() == 4 * state.region.width * state.region.height
    &&& state.step is Release || held_at(state.step, state.attempt) == Some(state.held)
}

/// What a capture holds at a step; `None` for a step that the attempt does not have.
pub open spec fn held_at(step: CaptureStep, attempt: Attempt) -> Option<Held> {
    let of_window = Held { window_dc: true, ..nothing_held() };
    let of_screen = Held { screen_dc: true, ..nothing_held() };
    match attempt {
        Attempt::Window => match step {
            CaptureStep::Window
            | CaptureStep::Visible
            | CaptureStep::Rect
            | CaptureStep::WindowDc
            | CaptureStep::Finished => Some(nothing_held()),
            CaptureStep::MemoryDc => Some(of_window),
            CaptureStep::Bitmap => Some(Held { memory_dc: true, ..of_window }),
            CaptureStep::Selection => Some(Held { memory_dc: true, bitmap: true, ..of_window }),
            CaptureStep::PrintFull
            | CaptureStep::PrintPlain
            | CaptureStep::ScreenDc
            | CaptureStep::ScreenReturned { .. }
            | CaptureStep::Pixels => Some(
                Held { memory_dc: true, bitmap: true, selected: true, ..of_window },
            ),
            CaptureStep::Copy => Some(
                Held {
                    memory_dc: true,
                    bitmap: true,
                    selected: true,
                    screen_dc: true,
                    ..of_window
                },
            ),
            CaptureStep::Release => None,
        },
        Attempt::Screen => match step {
            CaptureStep::ScreenDc | CaptureStep::Finished => Some(nothing_held()),
            CaptureStep::MemoryDc => Some(of_screen),
            CaptureStep::Bitmap => Some(Held { memory_dc: true, ..of_screen }),
            CaptureStep::Selection => Some(Held { memory_dc: true, bitmap: true, ..of_screen }),
            CaptureStep::Copy | CaptureStep::Pixels => Some(
                Held { memory_dc: true, bitmap: true, selected: true, ..of_screen },
            ),
            _ => None,
        },
    }
}

/// The window has been measured.
pub open spec fn is_measured(state: CaptureState) -> bool {
    has_area(state.rect) && is_countable(state.rect) && is_inside(state.region, state.rect)
}

// ---------------------------------------------------------------------------
// Giving back
// ---------------------------------------------------------------------------

/// Nothing is held.
pub open spec fn nothing_held() -> Held {
    Held { window_dc: false, screen_dc: false, memory_dc: false, bitmap: false, selected: false }
}

/// What is given back next, in the reverse of the order in which it was obtained.
pub open spec fn next_release(held: Held) -> Option<(CaptureAction, Held)> {
    if held.selected {
        Some((CaptureAction::RestoreSelection, Held { selected: false, ..held }))
    } else if held.bitmap {
        Some((CaptureAction::DeleteBitmap, Held { bitmap: false, ..held }))
    } else if held.memory_dc {
        Some((CaptureAction::DeleteMemoryDc, Held { memory_dc: false, ..held }))
    } else if held.window_dc {
        Some((CaptureAction::ReleaseWindowDc, Held { window_dc: false, ..held }))
    } else if held.screen_dc {
        Some((CaptureAction::ReleaseScreenDc, Held { screen_dc: false, ..held }))
    } else {
        None
    }
}

fn pick_release(held: Held) -> (r: Option<(CaptureAction, Held)>)
    ensures
        r == next_release(held),
{
    let mut left = held;
    if held.selected {
        left.selected = false;
        Some((CaptureAction::RestoreSelection, left))
    } else if held.bitmap {
        left.bitmap = false;
        Some((CaptureAction::DeleteBitmap, left))
    } else if held.memory_dc {
        left.memory_dc = false;
        Some((CaptureAction::DeleteMemoryDc, left))
    } else if held.window_dc {
        left.window_dc = false;
        Some((CaptureAction::ReleaseWindowDc, left))
    } else if held.screen_dc {
        left.screen_dc = false;
        Some((CaptureAction::ReleaseScreenDc, left))
    } else {
        None
    }
}

/// A state, its pixels, and the action that goes with it.
pub struct Transition {
    pub state: CaptureState,
    pub pixels: Option<Seq<u8>>,
    pub action: CaptureAction,
}

/// Gives something back, or, once nothing is held, settles the attempt: a black
/// picture of the window leads to an attempt on the screen, anything else ends the
/// capture.
pub open spec fn wind_up(state: CaptureState, pixels: Option<Seq<u8>>) -> Transition {
    match next_release(state.held) {
        Some((action, held)) => Transition {
            state: CaptureState { step: CaptureStep::Release, held, ..state },
            pixels,
            action,
        },
        None => if state.attempt is Window && (pixels matches Some(p) && is_mostly_black(p)) {
            Transition {
                state: CaptureState {
                    step: CaptureStep::ScreenDc,
                    attempt: Attempt::Screen,
                    ..state
                },
                pixels: None,
                action: CaptureAction::GetScreenDc,
            }
        } else {
            Transition {
                state: CaptureState { step: CaptureStep::Finished, ..state },
                pixels,
                action: CaptureAction::Done,
            }
        },
    }
}

// ---------------------------------------------------------------------------
// The next step
// ---------------------------------------------------------------------------

/// The action that a state waits for a reply to.
pub open spec fn asking(state: CaptureState, action: CaptureAction) -> Transition {
    Transition { state, pixels: None, action }
}

/// The state at another step.
pub open spec fn at(state: CaptureState, step: CaptureStep) -> CaptureState {
    CaptureState { step, ..state }
}

/// The action that copies the region from the screen.
pub open spec fn copy_action(state: CaptureState) -> CaptureAction {
    CaptureAction::CopyScreen {
        to_x: state.region.x,
        to_y: state.region.y,
        x: wrap_i32(state.rect.left + state.region.x),
        y: wrap_i32(state.rect.top + state.region.y),
        width: state.region.width,
        height: state.region.height,
    }
}

/// The pixels of the region, out of those of the whole window.
pub open spec fn region_pixels(state: CaptureState, pixels: Seq<u8>) -> Seq<u8> {
    cropped(
        pixels,
        across(state.rect) as int,
        state.region.x as int,
        state.region.y as int,
        state.region.width as int,
        state.region.height as int,
    )
}

/// The state after a reply, and the action that comes next.
pub open spec fn next(state: CaptureState, pixels: Option<Seq<u8>>, reply: ReplyView) -> Transition {
    let yes = reply is Yes;
    let held = state.held;
    let read = asking(
        at(state, CaptureStep::Pixels),
        CaptureAction::ReadPixels { width: across(state.rect), height: down(state.rect) },
    );
    match state.step {
        CaptureStep::Window => if yes {
            asking(at(state, CaptureStep::Visible), CaptureAction::CheckVisible)
        } else {
            wind_up(state, None)
        },
        CaptureStep::Visible => if yes {
            asking(at(state, CaptureStep::Rect), CaptureAction::QueryRect)
        } else {
            wind_up(state, None)
        },
        CaptureStep::Rect => match reply {
            ReplyView::At(rect) => if has_area(rect) && is_inside(state.region, rect) {
                asking(
                    CaptureState { step: CaptureStep::WindowDc, rect, ..state },
                    CaptureAction::GetWindowDc,
                )
            } else {
                wind_up(state, None)
            },
            _ => wind_up(state, None),
        },
        CaptureStep::WindowDc => if yes {
            asking(
                CaptureState {
                    step: CaptureStep::MemoryDc,
                    held: Held { window_dc: true, ..held },
                    ..state
                },
                CaptureAction::CreateMemoryDc { attempt: state.attempt },
            )
        } else {
            wind_up(state, None)
        },
        CaptureStep::ScreenDc => if !yes {
            wind_up(state, None)
        } else if state.attempt is Window {
            asking(
                CaptureState {
                    step: CaptureStep::Copy,
                    held: Held { screen_dc: true, ..held },
                    ..state
                },
                copy_action(state),
            )
        } else {
            asking(
                CaptureState {
                    step: CaptureStep::MemoryDc,
                    held: Held { screen_dc: true, ..held },
                    ..state
                },
                CaptureAction::CreateMemoryDc { attempt: state.attempt },
            )
        },
        CaptureStep::MemoryDc => if yes {
            asking(
                CaptureState {
                    step: CaptureStep::Bitmap,
                    held: Held { memory_dc: true, ..held },
                    ..state
                },
                CaptureAction::CreateBitmap {
                    attempt: state.attempt,
                    width: across(state.rect),
                    height: down(state.rect),
                },
            )
        } else {
            wind_up(state, None)
        },
        CaptureStep::Bitmap => if yes {
            asking(
                CaptureState {
                    step: CaptureStep::Selection,
                    held: Held { bitmap: true, ..held },
                    ..state
                },
                CaptureAction::SelectBitmap,
            )
        } else {
            wind_up(state, None)
        },
        CaptureStep::Selection => {
            let selected = CaptureState { held: Held { selected: true, ..held }, ..state };
            if state.attempt is Window {
                asking(
                    at(selected, CaptureStep::PrintFull),
                    CaptureAction::PrintWindow { flags: PW_RENDERFULLCONTENT },
                )
            } else {
                asking(at(selected, CaptureStep::Copy), copy_action(state))
            }
        },
        CaptureStep::PrintFull => if yes {
            read
        } else {
            asking(at(state, CaptureStep::PrintPlain), CaptureAction::PrintWindow { flags: 0 })
        },
        CaptureStep::PrintPlain => if yes {
            read
        } else {
            asking(at(state, CaptureStep::ScreenDc), CaptureAction::GetScreenDc)
        },
        CaptureStep::Copy => if state.attempt is Window {
            asking(
                CaptureState {
                    step: CaptureStep::ScreenReturned { copied: yes },
                    held: Held { screen_dc: false, ..held },
                    ..state
                },
                CaptureAction::ReleaseScreenDc,
            )
        } else if yes {
            read
        } else {
            wind_up(state, None)
        },
        CaptureStep::ScreenReturned { copied } => if copied {
            read
        } else {
            wind_up(state, None)
        },
        CaptureStep::Pixels => match reply {
            ReplyView::Pixels(p) => if p.len() == 4 * across(state.rect) * down(state.rect) {
                wind_up(state, Some(region_pixels(state, p)))
            } else {
                wind_up(state, None)
            },
            _ => wind_up(state, None),
        },
        CaptureStep::Release => wind_up(state, pixels),
        CaptureStep::Finished => Transition { state, pixels, action: CaptureAction::Done },
    }
}

/// The pixels of a session.
pub open spec fn pixels_of(session: CaptureSession) -> Option<Seq<u8>> {
    match session.pixels {
        Some(p) => Some(p@),
        None => None,
    }
}

/// The session and the action are those of a transition.
pub open spec fn made(session: CaptureSession, action: CaptureAction, t: Transition) -> bool {
    session.state == t.state && pixels_of(session) == t.pixels && action == t.action
}

/// The state in which a capture starts.
pub open spec fn initial_capture(region: Region) -> CaptureState {
    CaptureState {
        step: CaptureStep::Window,
        attempt: Attempt::Window,
        region,
        rect: Rect { left: 0, top: 0, right: 0, bottom: 0 },
        held: nothing_held(),
    }
}

/// Starts a capture of a region. Its first action is to check the window.
pub fn start_capture(region: Region) -> (r: (CaptureSession, CaptureAction))
    ensures
        made(r.0, r.1, asking(initial_capture(region), CaptureAction::CheckWindow)),
        is_sound(r.0.state, pixels_of(r.0)),
{
    let held = Held {
        window_dc: false,
        screen_dc: false,
        memory_dc: false,
        bitmap: false,
        selected: false,
    };
    let rect = Rect { left: 0, top: 0, right: 0, bottom: 0 };
    let state = CaptureState {
        step: CaptureStep::Window,
        attempt: Attempt::Window,
        region,
        rect,
        held,
    };
    (CaptureSession { state, pixels: None }, CaptureAction::CheckWindow)
}

fn wind_up_session(session: &mut CaptureSession) -> (action: CaptureAction)
    ensures
        made(*final(session), action, wind_up(old(session).state, pixels_of(*old(session)))),
{
    match pick_release(session.state.held) {
        Some((action, held)) => {
            session.state.step = CaptureStep::Release;
            session.state.held = held;
            action
        },
        None => {
            let black: bool = match (&session.state.attempt, &session.pixels) {
                (Attempt::Window, Some(pixels)) => mostly_black(pixels),
                _ => false,
            };
            if black {
                session.state.step = CaptureStep::ScreenDc;
                session.state.attempt = Attempt::Screen;
                session.pixels = None;
                CaptureAction::GetScreenDc
            } else {
                session.state.step = CaptureStep::Finished;
                CaptureAction::Done
            }
        },
    }
}

fn fail(session: &mut CaptureSession) -> (action: CaptureAction)
    ensures
        made(*final(session), action, wind_up(old(session).state, None)),
{
    session.pixels = None;
    wind_up_session(session)
}

fn ask(session: &mut CaptureSession, step: CaptureStep, action: CaptureAction) -> (r: CaptureAction)
    ensures
        made(*final(session), r, asking(at(old(session).state, step), action)),
{
    session.pixels = None;
    session.state.step = step;
    action
}

/// Moves a coordinate, in two's complement.
fn shifted(from: i32, by: i32) -> (r: i32)
    ensures
        r == wrap_i32(from + by),
{
    let d: i64 = from as i64 + by as i64;
    if d < -0x8000_0000 {
        (d + 0x1_0000_0000) as i32
    } else if d >= 0x8000_0000 {
        (d - 0x1_0000_0000) as i32
    } else {
        d as i32
    }
}

/// Tells whether a region lies within a window of this size without filling it.
fn fits(region: Region, width: i32, height: i32) -> (r: bool)
    ensures
        forall|rect: Rect|
            across(rect) == width && down(rect) == height ==> r == #[trigger] is_inside(
                region,
                rect,
            ),
{
    if region.x < 0 || region.y < 0 || region.width <= 0 || region.height <= 0 {
        return false;
    }
    if region.x as i64 + region.width as i64 > width as i64 || region.y as i64
        + region.height as i64 > height as i64 {
        return false;
    }
    let (a, b): (i64, i64) = (region.width as i64, region.height as i64);
    let (c, d): (i64, i64) = (width as i64, height as i64);
    assert(0 <= a * b <= 0x7fff_ffff * 0x7fff_ffff) by (nonlinear_arith)
        requires
            0 <= a <= 0x7fff_ffff,
            0 <= b <= 0x7fff_ffff,
    ;
    assert(0 <= c * d <= 0x7fff_ffff * 0x7fff_ffff) by (nonlinear_arith)
        requires
            0 <= c <= 0x7fff_ffff,
            0 <= d <= 0x7fff_ffff,
    ;
    a * b < c * d
}

/// Picks the pixels of a region out of those of a whole window.
fn crop_region(pixels: &Vec<u8>, region: Region, width: i32, height: i32) -> (r: Vec<u8>)
    requires
        0 <= region.x,
        0 <= region.y,
        0 < region.width,
        0 < region.height,
        region.x + region.width <= width,
        region.y + region.height <= height,
        pixels@.len() == 4 * width * height,
    ensures
        r@ == cropped(
            pixels@,
            width as int,
            region.x as int,
            region.y as int,
            region.width as int,
            region.height as int,
        ),
{
    crop(
        pixels,
        width as usize,
        (region.x as usize, region.y as usize),
        (region.width as usize, region.height as usize),
        height as usize,
    )
}

fn ask_for_pixels(session: &mut CaptureSession) -> (r: CaptureAction)
    ensures
        made(
            *final(session),
            r,
            asking(
                at(old(session).state, CaptureStep::Pixels),
                CaptureAction::ReadPixels {
                    width: across(old(session).state.rect),
                    height: down(old(session).state.rect),
                },
            ),
        ),
{
    let rect: Rect = session.state.rect;
    let width: i32 = signed_span(rect.left, rect.right);
    let height: i32 = signed_span(rect.top, rect.bottom);
    ask(session, CaptureStep::Pixels, CaptureAction::ReadPixels { width, height })
}

/// Takes the reply to the last action of a capture and says which action comes next.
pub fn capture_fortnite_window(session: &mut CaptureSession, reply: CaptureReply) -> (action:
    CaptureAction)
    requires
        is_sound(old(session).state, pixels_of(*old(session))),
        is_acceptable(reply@),
    ensures
        made(
            *final(session),
            action,
            next(old(session).state, pixels_of(*old(session)), reply@),
        ),
        is_sound(final(session).state, pixels_of(*final(session))),
{
    proof {
        law_capture_stays_sound(session.state, pixels_of(*session), reply@);
    }
    let yes: bool = matches!(reply, CaptureReply::Yes);
    let attempt: Attempt = session.state.attempt;
    let rect: Rect = session.state.rect;
    let width: i32 = signed_span(rect.left, rect.right);
    let height: i32 = signed_span(rect.top, rect.bottom);
    let region: Region = session.state.region;
    let copy = CaptureAction::CopyScreen {
        to_x: region.x,
        to_y: region.y,
        x: shifted(rect.left, region.x),
        y: shifted(rect.top, region.y),
        width: region.width,
        height: region.height,
    };
    match session.state.step {
        CaptureStep::Window => {
            if yes {
                ask(session, CaptureStep::Visible, CaptureAction::CheckVisible)
            } else {
                fail(session)
            }
        },
        CaptureStep::Visible => {
            if yes {
                ask(session, CaptureStep::Rect, CaptureAction::QueryRect)
            } else {
                fail(session)
            }
        },
        CaptureStep::Rect => match reply {
            CaptureReply::At(found) => {
                let w: i32 = signed_span(found.left, found.right);
                let h: i32 = signed_span(found.top, found.bottom);
                if w > 0 && h > 0 && fits(region, w, h) {
                    session.state.rect = found;
                    ask(session, CaptureStep::WindowDc, CaptureAction::GetWindowDc)
                } else {
                    fail(session)
                }
            },
            _ => fail(session),
        },
        CaptureStep::WindowDc => {
            if yes {
                session.state.held.window_dc = true;
                ask(session, CaptureStep::MemoryDc, CaptureAction::CreateMemoryDc { attempt })
            } else {
                fail(session)
            }
        },
        CaptureStep::ScreenDc => {
            if !yes {
                fail(session)
            } else {
                session.state.held.screen_dc = true;
                match attempt {
                    Attempt::Window => ask(session, CaptureStep::Copy, copy),
                    Attempt::Screen => ask(
                        session,
                        CaptureStep::MemoryDc,
                        CaptureAction::CreateMemoryDc { attempt },
                    ),
                }
            }
        },
        CaptureStep::MemoryDc => {
            if yes {
                session.state.held.memory_dc = true;
                ask(
                    session,
                    CaptureStep::Bitmap,
                    CaptureAction::CreateBitmap { attempt, width, height },
                )
            } else {
                fail(session)
            }
        },
        CaptureStep::Bitmap => {
            if yes {
                session.state.held.bitmap = true;
                ask(session, CaptureStep::Selection, CaptureAction::SelectBitmap)
            } else {
                fail(session)
            }
        },
        CaptureStep::Selection => {
            session.state.held.selected = true;
            match attempt {
                Attempt::Window => ask(
                    session,
                    CaptureStep::PrintFull,
                    CaptureAction::PrintWindow { flags: PW_RENDERFULLCONTENT },
                ),
                Attempt::Screen => ask(session, CaptureStep::Copy, copy),
            }
        },
        CaptureStep::PrintFull => {
            if yes {
                ask_for_pixels(session)
            } else {
                ask(session, CaptureStep::PrintPlain, CaptureAction::PrintWindow { flags: 0 })
            }
        },
        CaptureStep::PrintPlain => {
            if yes {
                ask_for_pixels(session)
            } else {
                ask(session, CaptureStep::ScreenDc, CaptureAction::GetScreenDc)
            }
        },
        CaptureStep::Copy => match attempt {
            Attempt::Window => {
                session.state.held.screen_dc = false;
                ask(
                    session,
                    CaptureStep::ScreenReturned { copied: yes },
                    CaptureAction::ReleaseScreenDc,
                )
            },
            Attempt::Screen => {
                if yes {
                    ask_for_pixels(session)
                } else {
                    fail(session)
                }
            },
        },
        CaptureStep::ScreenReturned { copied } => {
            if copied {
                ask_for_pixels(session)
            } else {
                fail(session)
            }
        },
        CaptureStep::Pixels => match reply {
            CaptureReply::Pixels(pixels) => {
                if pixels.len() as i128 == 4 * (width as i128) * (height as i128) {
                    session.pixels = Some(crop_region(&pixels, region, width, height));
                    wind_up_session(session)
                } else {
                    fail(session)
                }
            },
            _ => fail(session),
        },
        CaptureStep::Release => wind_up_session(session),
        CaptureStep::Finished => CaptureAction::Done,
    }
}

/// The picture that a finished capture took, if it took one: that of the region, which is
/// smaller than the window.
pub fn captured(session: CaptureSession) -> (shot: Option<Screenshot>)
    requires
        is_sound(session.state, pixels_of(session)),
    ensures
        shot is Some == (session.state.step is Finished && session.pixels is Some),
        shot matches Some(shot) ==> {
            &&& shot.width == session.state.region.width
            &&& shot.height == session.state.region.height
            &&& shot.width * shot.height < across(session.state.rect) * down(session.state.rect)
            &&& shot.rgba@ == reordered(pixels_of(session)->0)
            &&& is_picture(shot)
        },
{
    match (session.state.step, session.pixels) {
        (CaptureStep::Finished, Some(pixels)) => {
            let width: u32 = session.state.region.width as u32;
            let height: u32 = session.state.region.height as u32;
            assert(4 * width * height == 4 * (width * height)) by (nonlinear_arith);
            Some(Screenshot { width, height, rgba: bgra_to_rgba(pixels) })
        },
        _ => None,
    }
}

// ---------------------------------------------------------------------------
// Laws
// ---------------------------------------------------------------------------

/// Every step keeps the state sound.
pub proof fn law_capture_stays_sound(
    state: CaptureState,
    pixels: Option<Seq<u8>>,
    reply: ReplyView,
)
    requires
        is_sound(state, pixels),
        is_acceptable(reply),
    ensures
        is_sound(next(state, pixels, reply).state, next(state, pixels, reply).pixels),
{
}

/// A capture that is done holds nothing: every context and bitmap has been given
/// back, whichever way the capture went.
pub proof fn law_capture_gives_everything_back(
    state: CaptureState,
    pixels: Option<Seq<u8>>,
    reply: ReplyView,
)
    requires
        state.step !is Finished,
        next(state, pixels, reply).action is Done,
    ensures
        next(state, pixels, reply).state.held == nothing_held(),
{
}

/// What an action gives back.
pub open spec fn gives_back(action: CaptureAction, held: Held) -> Option<Held> {
    match action {
        CaptureAction::RestoreSelection => Some(Held { selected: false, ..held }),
        CaptureAction::DeleteBitmap => Some(Held { bitmap: false, ..held }),
        CaptureAction::DeleteMemoryDc => Some(Held { memory_dc: false, ..held }),
        CaptureAction::ReleaseWindowDc => Some(Held { window_dc: false, ..held }),
        CaptureAction::ReleaseScreenDc => Some(Held { screen_dc: false, ..held }),
        _ => None,
    }
}

/// An action that gives something back gives back what is held, and nothing else: what
/// was obtained is never given back twice.
pub proof fn law_only_held_things_are_given_back(
    state: CaptureState,
    pixels: Option<Seq<u8>>,
    reply: ReplyView,
)
    requires
        is_sound(state, pixels),
    ensures
        gives_back(next(state, pixels, reply).action, state.held) matches Some(left) ==> {
            &&& left == next(state, pixels, reply).state.held
            &&& left != state.held
        },
{
}

/// The window is printed, the screen copied and the pixels read only while the bitmap
/// is selected into the memory context, and the screen is copied only while a context
/// of it is held.
pub proof fn law_drawing_has_its_contexts(
    state: CaptureState,
    pixels: Option<Seq<u8>>,
    reply: ReplyView,
)
    requires
        is_sound(state, pixels),
        is_acceptable(reply),
    ensures
        ({
            let t = next(state, pixels, reply);
            let held = t.state.held;
            &&& t.action is PrintWindow || t.action is CopyScreen || t.action is ReadPixels
                ==> held.memory_dc && held.bitmap && held.selected
            &&& t.action is CopyScreen ==> held.screen_dc
        }),
{
}

/// How many things are held.
pub open spec fn held_count(held: Held) -> int {
    (if held.window_dc { 1int } else { 0 }) + (if held.screen_dc { 1int } else { 0 }) + (
    if held.memory_dc { 1int } else { 0 }) + (if held.bitmap { 1int } else { 0 }) + (if held.selected {
        1int
    } else {
        0
    })
}

/// A bound on the number of actions that are still to come.
pub open spec fn actions_left(state: CaptureState) -> int {
    let second = state.attempt is Screen;
    match state.step {
        CaptureStep::Window => 40,
        CaptureStep::Visible => 39,
        CaptureStep::Rect => 38,
        CaptureStep::WindowDc => 37,
        CaptureStep::MemoryDc => if second { 16 } else { 36 },
        CaptureStep::Bitmap => if second { 15 } else { 35 },
        CaptureStep::Selection => if second { 14 } else { 34 },
        CaptureStep::PrintFull => 33,
        CaptureStep::PrintPlain => 32,
        CaptureStep::ScreenDc => if second { 17 } else { 31 },
        CaptureStep::Copy => if second { 13 } else { 30 },
        CaptureStep::ScreenReturned { .. } => 29,
        CaptureStep::Pixels => if second { 12 } else { 28 },
        CaptureStep::Release => if second {
            1 + held_count(state.held)
        } else {
            18 + held_count(state.held)
        },
        CaptureStep::Finished => 0,
    }
}

/// A capture comes to an end: each reply brings it closer, so it takes at most forty
/// replies.
pub proof fn law_capture_comes_to_an_end(
    state: CaptureState,
    pixels: Option<Seq<u8>>,
    reply: ReplyView,
)
    requires
        is_sound(state, pixels),
        state.step !is Finished,
    ensures
        0 <= actions_left(next(state, pixels, reply).state) < actions_left(state) <= 40,
{
}

/// A whole capture: where a series of replies leads.
pub open spec fn capture_after(region: Region, replies: Seq<ReplyView>) -> Transition
    decreases replies.len(),
{
    if replies.len() == 0 {
        asking(initial_capture(region), CaptureAction::CheckWindow)
    } else {
        let before = capture_after(region, replies.drop_last());
        next(before.state, before.pixels, replies.last())
    }
}

/// Whatever the replies, a capture is over after forty of them, and then holds
/// nothing.
pub proof fn law_forty_replies_suffice(region: Region, replies: Seq<ReplyView>)
    requires
        replies.len() >= 40,
        forall|i: int| 0 <= i < replies.len() ==> is_acceptable(#[trigger] replies[i]),
    ensures
        capture_after(region, replies).state.step is Finished,
        capture_after(region, replies).action is Done,
        capture_after(region, replies).state.held == nothing_held(),
{
    lemma_capture_progress(region, replies);
}

proof fn lemma_capture_progress(region: Region, replies: Seq<ReplyView>)
    requires
        forall|i: int| 0 <= i < replies.len() ==> is_acceptable(#[trigger] replies[i]),
    ensures
        is_sound(capture_after(region, replies).state, capture_after(region, replies).pixels),
        capture_after(region, replies).state.step is Finished ==> capture_after(region, replies).action is Done,
        capture_after(region, replies).state.step is Finished || 0 < actions_left(
            capture_after(region, replies).state,
        ) <= 40 - replies.len(),
    decreases replies.len(),
{
    if replies.len() > 0 {
        let init = replies.drop_last();
        assert forall|i: int| 0 <= i < init.len() implies is_acceptable(#[trigger] init[i]) by {
            assert(init[i] == replies[i]);
        }
        lemma_capture_progress(region, init);
        let before = capture_after(region, init);
        assert(is_acceptable(replies[replies.len() - 1]));
        law_capture_stays_sound(before.state, before.pixels, replies.last());
        if before.state.step !is Finished {
            law_capture_comes_to_an_end(before.state, before.pixels, replies.last());
        }
    }
}

/// A capture that delivers pixels of the window itself delivers no black picture.
pub proof fn law_window_pictures_are_not_black(
    state: CaptureState,
    pixels: Option<Seq<u8>>,
    reply: ReplyView,
)
    requires
        state.step !is Finished,
        next(state, pixels, reply).action is Done,
        next(state, pixels, reply).state.attempt is Window,
    ensures
        next(state, pixels, reply).pixels matches Some(p) ==> !is_mostly_black(p),
{
}

/// Only the region is ever copied from the screen, and it lies within the window.
pub proof fn law_only_the_region_is_copied(
    state: CaptureState,
    pixels: Option<Seq<u8>>,
    reply: ReplyView,
)
    requires
        is_sound(state, pixels),
        is_acceptable(reply),
    ensures
        next(state, pixels, reply).action matches CaptureAction::CopyScreen { width, height, .. }
            ==> {
            &&& width == state.region.width
            &&& height == state.region.height
            &&& is_inside(state.region, state.rect)
        },
{
}

/// Whatever the replies, what a capture keeps is the picture of a region that lies within
/// the window and is smaller than it.
pub proof fn law_pictures_are_smaller_than_the_window(region: Region, replies: Seq<ReplyView>)
    requires
        forall|i: int| 0 <= i < replies.len() ==> is_acceptable(#[trigger] replies[i]),
    ensures
        ({
            let end = capture_after(region, replies);
            end.pixels matches Some(p) ==> {
                &&& p.len() == 4 * region.width * region.height
                &&& is_inside(region, end.state.rect)
                &&& region.width * region.height < across(end.state.rect) * down(end.state.rect)
            }
        }),
{
    lemma_capture_progress(region, replies);
    lemma_region_stays(region, replies);
}

proof fn lemma_region_stays(region: Region, replies: Seq<ReplyView>)
    ensures
        capture_after(region, replies).state.region == region,
    decreases replies.len(),
{
    if replies.len() > 0 {
        lemma_region_stays(region, replies.drop_last());
    }
}

/// The region that is read from a game window lies within it.
pub proof fn law_region_lies_within_the_game(width: u32, height: u32, rect: Rect)
    requires
        width > MIN_GAME_WIDTH,
        height > MIN_GAME_HEIGHT,
        across(rect) == width,
        down(rect) == height,
    ensures
        is_inside(region_of(width, height), rect),
{
    let (a, b): (int, int) = (width as int / 2, height as int / 2);
    let (w, h): (int, int) = (width as int, height as int);
    assert(a * b < w * h) by (nonlinear_arith)
        requires
            0 < a < w,
            0 < b < h,
    ;
}

/// The window is as wide and as high as its edges are apart, as far as that fits in 32
/// bits.
pub proof fn law_window_is_measured_by_its_edges(rect: Rect)
    ensures
        i32::MIN <= rect.right - rect.left <= i32::MAX ==> across(rect) == rect.right - rect.left,
        i32::MIN <= rect.bottom - rect.top <= i32::MAX ==> down(rect) == rect.bottom - rect.top,
{
}

/// A copy of the screen keeps each pixel at its place: what comes to stand at a place
/// within the window is what the screen shows at that place of the window. The place is
/// the corner of the region, and the window is where it was measured.
pub proof fn law_screen_copies_keep_their_places(
    state: CaptureState,
    pixels: Option<Seq<u8>>,
    reply: ReplyView,
)
    requires
        is_sound(state, pixels),
    ensures
        next(state, pixels, reply).action matches CaptureAction::CopyScreen {
            to_x,
            to_y,
            x,
            y,
            width,
            height,
        } ==> {
            &&& to_x == state.region.x
            &&& to_y == state.region.y
            &&& width == state.region.width
            &&& height == state.region.height
            &&& (x - (state.rect.left + to_x)) % 0x1_0000_0000 == 0
            &&& (y - (state.rect.top + to_y)) % 0x1_0000_0000 == 0
            &&& i32::MIN <= state.rect.left + to_x <= i32::MAX ==> x == state.rect.left + to_x
            &&& i32::MIN <= state.rect.top + to_y <= i32::MAX ==> y == state.rect.top + to_y
        },
{
}

/// The region is half as wide and half as high as the window, and as far from its left
/// edge as from its right, and from its top as from its bottom, but for three pixels.
pub proof fn law_region_is_the_middle_half(width: u32, height: u32)
    ensures
        ({
            let r = region_of(width, height);
            &&& width - 1 <= 2 * r.width <= width
            &&& height - 1 <= 2 * r.height <= height
            &&& 0 <= r.x <= width - r.x - r.width <= r.x + 3
            &&& 0 <= r.y <= height - r.y - r.height <= r.y + 3
        }),
{
}

/// What is kept of the pixels that were read: where they are those of the whole window,
/// byte for byte the pixels of the region; otherwise nothing.
pub proof fn law_kept_pixels_are_those_of_the_region(
    state: CaptureState,
    pixels: Option<Seq<u8>>,
    read: Seq<u8>,
    px: int,
    py: int,
    c: int,
)
    requires
        is_sound(state, pixels),
        state.step is Pixels,
        0 <= px < state.region.width,
        0 <= py < state.region.height,
        0 <= c < 4,
    ensures
        ({
            let kept = next(state, pixels, ReplyView::Pixels(read)).pixels;
            &&& kept is Some <==> read.len() == 4 * across(state.rect) * down(state.rect)
            &&& kept matches Some(p) ==> {
                &&& p.len() == 4 * (state.region.width * state.region.height)
                &&& p[4 * (py * state.region.width + px) + c] == read[4 * ((state.region.y + py)
                    * across(state.rect) + (state.region.x + px)) + c]
            }
        }),
{
    law_region_keeps_its_pixels(
        read,
        across(state.rect) as int,
        state.region.x as int,
        state.region.y as int,
        state.region.width as int,
        state.region.height as int,
        px,
        py,
        c,
    );
}

/// What is kept survives the giving back, unless it is a black picture of the window: then
/// the screen is tried.
pub proof fn law_kept_pixels_stay(state: CaptureState, pixels: Option<Seq<u8>>, reply: ReplyView)
    requires
        state.step is Release,
    ensures
        ({
            let t = next(state, pixels, reply);
            let black = state.held == nothing_held() && state.attempt is Window && (
            pixels matches Some(p) && is_mostly_black(p));
            &&& !black ==> t.pixels == pixels && t.state.attempt == state.attempt
            &&& black ==> t.pixels is None && t.action is GetScreenDc && t.state.attempt is Screen
            &&& t.state.rect == state.rect && t.state.region == state.region
        }),
{
}

/// A failure gives no picture: after a reply of no to any question but that of a print of
/// the window, what follows is to give things back, and nothing is kept.
pub proof fn law_failures_give_no_picture(state: CaptureState, pixels: Option<Seq<u8>>)
    requires
        is_sound(state, pixels),
        state.step is Window || state.step is Visible || state.step is Rect || state.step
            is WindowDc || state.step is ScreenDc || state.step is MemoryDc || state.step is Bitmap
            || state.step is Pixels,
    ensures
        ({
            let t = next(state, pixels, ReplyView::No);
            &&& t.pixels is None
            &&& t.state.step is Release || t.state.step is Finished
            &&& t.state.step is Finished ==> t.action is Done
            &&& t.state.step is Release ==> gives_back(t.action, state.held) is Some
        }),
{
}

/// The actions that print a window, in their order: it is checked and measured, a bitmap of
/// its size is made, the window is printed into it with all its contents, and the pixels
/// are read.
#[verifier::rlimit(50)]
pub proof fn law_window_is_printed(region: Region, rect: Rect)
    requires
        has_area(rect),
        is_inside(region, rect),
    ensures
        ({
            let yes = ReplyView::Yes;
            let w = across(rect);
            let h = down(rect);
            let t1 = next(initial_capture(region), None, yes);
            let t2 = next(t1.state, None, yes);
            let t3 = next(t2.state, None, ReplyView::At(rect));
            let t4 = next(t3.state, None, yes);
            let t5 = next(t4.state, None, yes);
            let t6 = next(t5.state, None, yes);
            let t7 = next(t6.state, None, yes);
            let t8 = next(t7.state, None, yes);
            &&& t1.action == CaptureAction::CheckVisible
            &&& t2.action == CaptureAction::QueryRect
            &&& t3.action == CaptureAction::GetWindowDc
            &&& t4.action == CaptureAction::CreateMemoryDc { attempt: Attempt::Window }
            &&& t5.action == CaptureAction::CreateBitmap {
                attempt: Attempt::Window,
                width: w,
                height: h,
            }
            &&& t6.action == CaptureAction::SelectBitmap
            &&& t7.action == CaptureAction::PrintWindow { flags: 2 }
            &&& t8.action == CaptureAction::ReadPixels { width: w, height: h }
            &&& t8.state.step is Pixels
            &&& t8.state.attempt is Window
            &&& t8.state.rect == rect
            &&& t8.state.region == region
            &&& t8.pixels is None
        }),
{
    let yes = ReplyView::Yes;
    let t1 = next(initial_capture(region), None, yes);
    assert(t1.state.step is Visible && t1.pixels is None);
    let t2 = next(t1.state, None, yes);
    assert(t2.state.step is Rect && t2.state.region == region && t2.state.attempt is Window);
    let t3 = next(t2.state, None, ReplyView::At(rect));
    assert(t3.state.step is WindowDc && t3.state.rect == rect && t3.state.attempt is Window);
    let t4 = next(t3.state, None, yes);
    assert(t4.state.step is MemoryDc && t4.state.rect == rect && t4.state.attempt is Window);
    let t5 = next(t4.state, None, yes);
    assert(t5.state.step is Bitmap && t5.state.rect == rect && t5.state.attempt is Window);
    let t6 = next(t5.state, None, yes);
    assert(t6.state.step is Selection && t6.state.rect == rect && t6.state.attempt is Window);
    let t7 = next(t6.state, None, yes);
    assert(t7.state.step is PrintFull && t7.state.rect == rect && t7.state.attempt is Window);
}

/// Once the pixels were read, everything is given back, the last first: the selection, the
/// bitmap, the memory context, and the context of the window or of the screen.
#[verifier::rlimit(50)]
pub proof fn law_everything_is_given_back_in_order(
    state: CaptureState,
    pixels: Option<Seq<u8>>,
    reply: ReplyView,
    a: ReplyView,
    b: ReplyView,
    c: ReplyView,
)
    requires
        is_sound(state, pixels),
        state.step is Pixels,
    ensures
        ({
            let t1 = next(state, pixels, reply);
            let t2 = next(t1.state, t1.pixels, a);
            let t3 = next(t2.state, t2.pixels, b);
            let t4 = next(t3.state, t3.pixels, c);
            &&& t1.action == CaptureAction::RestoreSelection
            &&& t2.action == CaptureAction::DeleteBitmap
            &&& t3.action == CaptureAction::DeleteMemoryDc
            &&& t4.action == (match state.attempt {
                Attempt::Window => CaptureAction::ReleaseWindowDc,
                Attempt::Screen => CaptureAction::ReleaseScreenDc,
            })
            &&& t4.state.held == nothing_held()
            &&& t4.pixels == t1.pixels
        }),
{
    let t1 = next(state, pixels, reply);
    assert(t1.state.step is Release && !t1.state.held.selected);
    let t2 = next(t1.state, t1.pixels, a);
    assert(t2.state.step is Release && !t2.state.held.bitmap && t2.pixels == t1.pixels);
    let t3 = next(t2.state, t2.pixels, b);
    assert(t3.state.step is Release && !t3.state.held.memory_dc && t3.pixels == t1.pixels);
}

/// Where the window cannot be printed with all its contents, it is printed plainly; where
/// that fails too, the screen is copied into the same bitmap and its context given back at
/// once. The pixels are read only after one of the three has succeeded.
pub proof fn law_printing_falls_back_to_the_screen(
    state: CaptureState,
    pixels: Option<Seq<u8>>,
    copied: bool,
)
    requires
        is_sound(state, pixels),
        state.step is PrintFull,
    ensures
        ({
            let read = CaptureAction::ReadPixels {
                width: across(state.rect),
                height: down(state.rect),
            };
            let full = next(state, pixels, ReplyView::Yes);
            let plain = next(state, pixels, ReplyView::No);
            let printed = next(plain.state, plain.pixels, ReplyView::Yes);
            let screen = next(plain.state, plain.pixels, ReplyView::No);
            let copy = next(screen.state, screen.pixels, ReplyView::Yes);
            let reply = if copied {
                ReplyView::Yes
            } else {
                ReplyView::No
            };
            let back = next(copy.state, copy.pixels, reply);
            let end = next(back.state, back.pixels, ReplyView::No);
            &&& full.action == read
            &&& plain.action == CaptureAction::PrintWindow { flags: 0 }
            &&& printed.action == read
            &&& screen.action == CaptureAction::GetScreenDc
            &&& copy.action is CopyScreen
            &&& back.action == CaptureAction::ReleaseScreenDc
            &&& copied ==> end.action == read
            &&& !copied ==> end.action == CaptureAction::RestoreSelection && end.pixels is None
        }),
{
}

/// A black picture of the window leads to one of the screen, with a context, a memory
/// context and a bitmap of its own.
#[verifier::rlimit(50)]
pub proof fn law_black_windows_lead_to_the_screen(state: CaptureState, black: Seq<u8>)
    requires
        state.step is Release,
        state.attempt is Window,
        state.held == nothing_held(),
        is_mostly_black(black),
    ensures
        ({
            let yes = ReplyView::Yes;
            let w = across(state.rect);
            let h = down(state.rect);
            let t1 = next(state, Some(black), ReplyView::No);
            let t2 = next(t1.state, None, yes);
            let t3 = next(t2.state, None, yes);
            let t4 = next(t3.state, None, yes);
            let t5 = next(t4.state, None, yes);
            let t6 = next(t5.state, None, yes);
            &&& t1.action == CaptureAction::GetScreenDc
            &&& t1.pixels is None
            &&& t2.action == CaptureAction::CreateMemoryDc { attempt: Attempt::Screen }
            &&& t3.action == CaptureAction::CreateBitmap {
                attempt: Attempt::Screen,
                width: w,
                height: h,
            }
            &&& t4.action == CaptureAction::SelectBitmap
            &&& t5.action is CopyScreen
            &&& t6.action == CaptureAction::ReadPixels { width: w, height: h }
            &&& t6.state.step is Pixels
            &&& t6.state.attempt is Screen
            &&& t6.state.rect == state.rect
            &&& t6.state.region == state.region
        }),
{
    let yes = ReplyView::Yes;
    let t1 = next(state, Some(black), ReplyView::No);
    assert(t1.state.step is ScreenDc && t1.state.attempt is Screen);
    let t2 = next(t1.state, None, yes);
    assert(t2.state.step is MemoryDc && t2.state.attempt is Screen && t2.state.rect == state.rect);
    let t3 = next(t2.state, None, yes);
    assert(t3.state.step is Bitmap && t3.state.attempt is Screen && t3.state.rect == state.rect);
    let t4 = next(t3.state, None, yes);
    assert(t4.state.step is Selection && t4.state.attempt is Screen && t4.state.rect == state.rect);
    let t5 = next(t4.state, None, yes);
    assert(t5.state.step is Copy && t5.state.attempt is Screen && t5.state.rect == state.rect);
}

/// A capture that holds nothing any more, and has no black picture of the window, is over.
pub proof fn law_kept_pictures_end_the_capture(
    state: CaptureState,
    pixels: Option<Seq<u8>>,
    reply: ReplyView,
)
    requires
        state.step is Release,
        state.held == nothing_held(),
        state.attempt is Screen || pixels is None || !is_mostly_black(pixels->0),
    ensures
        next(state, pixels, reply).action is Done,
        next(state, pixels, reply).state.step is Finished,
        next(state, pixels, reply).pixels == pixels,
{
}

/// Every window with an area can be captured, however large, as long as the bytes of its
/// pixels can be counted; and a region of any size and place within it.
pub proof fn law_every_region_within_a_window_is_captured(region: Region, rect: Rect)
    requires
        0 < rect.right - rect.left <= i32::MAX,
        0 < rect.bottom - rect.top <= i32::MAX,
        0 <= region.x,
        0 <= region.y,
        0 < region.width,
        0 < region.height,
        region.x + region.width <= rect.right - rect.left,
        region.y + region.height <= rect.bottom - rect.top,
        region.width < rect.right - rect.left || region.height < rect.bottom - rect.top,
    ensures
        has_area(rect),
        is_inside(region, rect),
        is_countable(rect) <==> 4 * ((rect.right - rect.left) * (rect.bottom - rect.top))
            <= i32::MAX,
{
    let (a, b): (int, int) = (region.width as int, region.height as int);
    let (w, h): (int, int) = (rect.right - rect.left, rect.bottom - rect.top);
    assert(a * b < w * h) by (nonlinear_arith)
        requires
            0 < a <= w,
            0 < b <= h,
            a < w || b < h,
    ;
    assert(4 * w * h == 4 * (w * h)) by (nonlinear_arith);
}

} // verus!
