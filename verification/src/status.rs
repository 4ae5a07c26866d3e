//! What the agent knows of the game, and what it tells of it.

use vstd::prelude::*;
use vstd::string::*;
use crate::registry::agent_version;
use crate::window::FoundWindow;

verus! {

/// What the agent knows of the game window.
#[derive(Clone, Copy, Debug, PartialEq, Eq, Structural)]
pub struct FortniteWindowState {
    pub hwnd: Option<isize>,
    pub is_running: bool,
    pub width: u32,
    pub height: u32,
}

impl Default for FortniteWindowState {
    fn default() -> (state: Self)
        ensures
            state == (FortniteWindowState { hwnd: None, is_running: false, width: 0, height: 0 }),
    {
        FortniteWindowState { hwnd: None, is_running: false, width: 0, height: 0 }
    }
}

/// The answer to a question for the agent's health.
#[derive(Clone, Debug)]
pub struct HealthResponse {
    pub status: String,
    pub version: String,
    pub fortnite_running: bool,
}

/// The answer to a question for the game.
#[derive(Clone, Copy, Debug, PartialEq, Eq, Structural)]
pub struct ScreenStatusResponse {
    pub fortnite_running: bool,
    pub width: u32,
    pub height: u32,
}

/// What a search for the game window says of the game: without a window it does not
/// run and has no size.
pub open spec fn status_of(found: Option<FoundWindow>) -> ScreenStatusResponse {
    match found {
        Some(w) => ScreenStatusResponse {
            fortnite_running: true,
            width: w.width,
            height: w.height,
        },
        None => ScreenStatusResponse { fortnite_running: false, width: 0, height: 0 },
    }
}

/// What is known after a search that was asked for: whether the game runs, and its
/// size. The handle stays the one of the last search that kept it.
pub open spec fn observed(
    state: FortniteWindowState,
    found: Option<FoundWindow>,
) -> FortniteWindowState {
    let status = status_of(found);
    FortniteWindowState {
        is_running: status.fortnite_running,
        width: status.width,
        height: status.height,
        ..state
    }
}

/// What is known after a search of the agent's own: everything, the handle too.
pub open spec fn rechecked(
    state: FortniteWindowState,
    found: Option<FoundWindow>,
) -> FortniteWindowState {
    FortniteWindowState {
        hwnd: match found {
            Some(w) => Some(w.handle),
            None => None,
        },
        ..observed(state, found)
    }
}

/// What is known after a search before a capture. Where no window is found, the size
/// stays that of the last one.
pub open spec fn located(
    state: FortniteWindowState,
    found: Option<FoundWindow>,
) -> FortniteWindowState {
    match found {
        Some(w) => FortniteWindowState {
            hwnd: Some(w.handle),
            is_running: true,
            width: w.width,
            height: w.height,
        },
        None => FortniteWindowState { hwnd: None, is_running: false, ..state },
    }
}

/// Reads the status off a search for the game window.
pub fn screen_status(found: &Option<FoundWindow>) -> (status: ScreenStatusResponse)
    ensures
        status == status_of(*found),
{
    match found {
        Some(w) => ScreenStatusResponse {
            fortnite_running: true,
            width: w.width,
            height: w.height,
        },
        None => ScreenStatusResponse { fortnite_running: false, width: 0, height: 0 },
    }
}

/// Answers a question for the agent's health.
pub fn handle_health(state: &FortniteWindowState) -> (r: HealthResponse)
    ensures
        r.status@ == "ok"@,
        r.version@ == "2.3.0"@,
        r.fortnite_running == state.is_running,
{
    HealthResponse {
        status: "ok".to_owned(),
        version: agent_version(),
        fortnite_running: state.is_running,
    }
}

/// Answers a question for the game after a search for its window, and notes what was
/// found.
pub fn handle_screen_status(state: &mut FortniteWindowState, found: &Option<FoundWindow>) -> (r:
    ScreenStatusResponse)
    ensures
        r == status_of(*found),
        *final(state) == observed(*old(state), *found),
{
    let status: ScreenStatusResponse = screen_status(found);
    state.is_running = status.fortnite_running;
    state.width = status.width;
    state.height = status.height;
    status
}

/// Notes what a search of the agent's own found. Returns whether the game has started
/// or stopped since.
pub fn recheck(state: &mut FortniteWindowState, found: &Option<FoundWindow>) -> (changed: bool)
    ensures
        *final(state) == rechecked(*old(state), *found),
        changed == (old(state).is_running != found is Some),
{
    let before: bool = state.is_running;
    let status: ScreenStatusResponse = handle_screen_status(state, found);
    state.hwnd = match found {
        Some(w) => Some(w.handle),
        None => None,
    };
    before != status.fortnite_running
}

/// Notes what a search before a capture found.
pub fn locate(state: &mut FortniteWindowState, found: &Option<FoundWindow>)
    ensures
        *final(state) == located(*old(state), *found),
{
    match found {
        Some(w) => {
            state.hwnd = Some(w.handle);
            state.is_running = true;
            state.width = w.width;
            state.height = w.height;
        },
        None => {
            state.is_running = false;
            state.hwnd = None;
        },
    }
}

/// After every search the agent takes the game to run exactly when a window was found.
pub proof fn law_running_means_found(state: FortniteWindowState, found: Option<FoundWindow>)
    ensures
        observed(state, found).is_running == found is Some,
        rechecked(state, found).is_running == found is Some,
        located(state, found).is_running == found is Some,
{
}

/// A search of the agent's own leaves nothing of what was known before.
pub proof fn law_recheck_forgets(
    state: FortniteWindowState,
    other: FortniteWindowState,
    found: Option<FoundWindow>,
)
    ensures
        rechecked(state, found) == rechecked(other, found),
        rechecked(state, found).hwnd is Some == rechecked(state, found).is_running,
{
}

/// A search says of the game that it runs and how large it is where a window was found,
/// and otherwise that it does not run and has no size.
pub proof fn law_status_is_what_was_found(found: Option<FoundWindow>)
    ensures
        status_of(found).fortnite_running <==> found is Some,
        found matches Some(w) ==> status_of(found).width == w.width && status_of(found).height
            == w.height,
        found is None ==> status_of(found).width == 0 && status_of(found).height == 0,
{
}

/// What each search leaves behind, field by field. All note whether the game runs, and the
/// size of a window that was found. One that was asked for leaves the handle alone; one
/// before a capture leaves the size alone where nothing was found.
pub proof fn law_searches_note_what_they_found(
    state: FortniteWindowState,
    found: Option<FoundWindow>,
)
    ensures
        ({
            let asked = observed(state, found);
            let own = rechecked(state, found);
            let before_capture = located(state, found);
            &&& found matches Some(w) ==> {
                &&& asked.is_running && asked.width == w.width && asked.height == w.height
                &&& own.is_running && own.width == w.width && own.height == w.height
                &&& before_capture.is_running && before_capture.width == w.width
                    && before_capture.height == w.height
                &&& own.hwnd == Some(w.handle)
                &&& before_capture.hwnd == Some(w.handle)
            }
            &&& found is None ==> {
                &&& !asked.is_running && asked.width == 0 && asked.height == 0
                &&& !own.is_running && own.width == 0 && own.height == 0
                &&& !before_capture.is_running && before_capture.width == state.width
                    && before_capture.height == state.height
                &&& own.hwnd is None
                &&& before_capture.hwnd is None
            }
            &&& asked.hwnd == state.hwnd
        }),
{
}

} // verus!
