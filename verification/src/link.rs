//! The connection to the server: what the agent does next, from what has just
//! happened.

use vstd::prelude::*;
use vstd::string::*;
use crate::capture::{Region, Screenshot, is_picture, reading_region, region_of};
use crate::encode::{base64_text, encode_screenshot, file_of, is_deliverable, jpeg_file};
use crate::hotkey::{
    HotkeyState, KeybindConfig, initial_hotkeys, press_outcome, rebound, update_keybinds,
};
use crate::json::{ScalarView, json_document, json_object_text, reads_back, says, says_text};
use crate::keybind::keybind;
use crate::protocol::{
    RequestView, ServerRequest, capture_error_members, capture_error_message, capture_members,
    capture_message, hello_members, hello_message, law_capture_errors_say_so,
    law_greetings_say_what_is_known, law_pictures_come_with_their_sizes_and_times,
    law_reports_say_what_is_known, ping_members, read_request, request_in_text, status_members,
    status_message,
};
use crate::status::{
    FortniteWindowState, ScreenStatusResponse, handle_screen_status, locate, located, observed,
    recheck, rechecked, screen_status, status_of,
};
use crate::token::{
    TokenInfo, TokenView, config_members, law_token_survives_restart, read_config, token_in,
    token_in_config, usable_at, usable_token,
};
use crate::window::FoundWindow;

verus! {

/// The port on which the agent listens for the page.
pub const LOCAL_SERVER_PORT: u16 = 30123;

/// How long the agent waits from one ping to the next, in seconds.
pub const PING_INTERVAL_SECS: u64 = 30;

/// How long the agent waits from one search of its own for the game window to the next,
/// in seconds.
pub const CHECK_INTERVAL_SECS: u64 = 3;

/// How long the agent waits before it looks for a token again, in seconds.
pub const TOKEN_WAIT_SECS: u64 = 2;

/// How long the agent waits before it connects again, in seconds.
pub const RECONNECT_WAIT_SECS: u64 = 5;

/// The address of the server.
pub fn server_url() -> (url: String)
    ensures
        url@ == "wss://api.dropmazter.com:8443/pluto/agent"@,
{
    "wss://api.dropmazter.com:8443/pluto/agent".to_owned()
}

// ---------------------------------------------------------------------------
// The agent
// ---------------------------------------------------------------------------

/// What the agent knows, whatever becomes of the connection.
#[derive(Debug)]
pub struct Agent {
    pub token: Option<TokenInfo>,
    pub game: FortniteWindowState,
    pub keybinds: KeybindConfig,
    pub hotkeys: HotkeyState,
}

/// The contents of what the agent knows.
pub struct AgentView {
    pub token: Option<TokenView>,
    pub game: FortniteWindowState,
    pub capture_screen: Seq<char>,
    pub clear_screen: Seq<char>,
    pub hotkeys: HotkeyState,
}

impl View for Agent {
    type V = AgentView;

    open spec fn view(&self) -> AgentView {
        AgentView {
            token: token_in(self.token),
            game: self.game,
            capture_screen: self.keybinds.capture_screen@,
            clear_screen: self.keybinds.clear_screen@,
            hotkeys: self.hotkeys,
        }
    }
}

/// What the agent knows when it has just started: the login of the last run, and of the
/// rest nothing.
pub open spec fn initial_agent(token: Option<TokenView>) -> AgentView {
    AgentView {
        token,
        game: FortniteWindowState { hwnd: None, is_running: false, width: 0, height: 0 },
        capture_screen: "F8"@,
        clear_screen: "F9"@,
        hotkeys: initial_hotkeys(),
    }
}

impl Default for Agent {
    fn default() -> (agent: Self)
        ensures
            agent@ == initial_agent(None),
    {
        Agent {
            token: None,
            game: FortniteWindowState::default(),
            keybinds: KeybindConfig::default(),
            hotkeys: HotkeyState::default(),
        }
    }
}

/// The agent as it starts, with the login that the config file holds.
pub fn restored_agent(config: &str) -> (agent: Agent)
    ensures
        agent@ == initial_agent(token_in_config(json_document(config@))),
{
    let mut agent: Agent = Agent::default();
    agent.token = read_config(config);
    agent
}

/// What the agent would report of the game without a new search.
pub open spec fn known_status(game: FortniteWindowState) -> ScreenStatusResponse {
    ScreenStatusResponse {
        fortnite_running: game.is_running,
        width: game.width,
        height: game.height,
    }
}

// ---------------------------------------------------------------------------
// Phases, events and actions
// ---------------------------------------------------------------------------

/// What the connection is waiting for.
#[derive(Debug)]
pub enum LinkPhase {
    /// For a token that can be used.
    Token,
    /// For the connection to come about.
    Connecting { token: String },
    /// For the greeting to be sent; what was said in it of the game.
    Greeting { status: ScreenStatusResponse },
    /// For a command or a message.
    Listening,
    /// For the result of a search before a capture; whether the user asked for it.
    Locating { by_user: bool },
    /// For a picture of a window of this size.
    Capturing { by_user: bool, width: u32, height: u32 },
    /// For the time at which a picture is handed over.
    Stamping { picture: String, width: u32, height: u32, captured_at_ms: u64 },
    /// For the result of a search that the server asked for.
    Reporting,
    /// For the result of a search that the user asked for.
    Checking,
}

/// The contents of a phase.
pub enum PhaseView {
    Token,
    Connecting { token: Seq<char> },
    Greeting { status: ScreenStatusResponse },
    Listening,
    Locating { by_user: bool },
    Capturing { by_user: bool, width: u32, height: u32 },
    Stamping { picture: Seq<char>, width: u32, height: u32, captured_at_ms: u64 },
    Reporting,
    Checking,
}

impl View for LinkPhase {
    type V = PhaseView;

    open spec fn view(&self) -> PhaseView {
        match self {
            LinkPhase::Token => PhaseView::Token,
            LinkPhase::Connecting { token } => PhaseView::Connecting { token: token@ },
            LinkPhase::Greeting { status } => PhaseView::Greeting { status: *status },
            LinkPhase::Listening => PhaseView::Listening,
            LinkPhase::Locating { by_user } => PhaseView::Locating { by_user: *by_user },
            LinkPhase::Capturing { by_user, width, height } => PhaseView::Capturing {
                by_user: *by_user,
                width: *width,
                height: *height,
            },
            LinkPhase::Stamping { picture, width, height, captured_at_ms } => PhaseView::Stamping {
                picture: picture@,
                width: *width,
                height: *height,
                captured_at_ms: *captured_at_ms,
            },
            LinkPhase::Reporting => PhaseView::Reporting,
            LinkPhase::Checking => PhaseView::Checking,
        }
    }
}

/// What the user asks for.
#[derive(Clone, Copy, Debug, PartialEq, Eq, Structural)]
pub enum Cmd {
    CaptureFortnite,
    CheckFortnite,
    ForceReconnect,
}

/// Something that has happened.
#[derive(Debug)]
pub enum LinkEvent {
    /// The time, in nanoseconds since the Unix epoch.
    Clock { now_ns: i128 },
    Connected,
    ConnectFailed,
    /// The greeting was sent, or could not be.
    Greeted { sent: bool },
    /// The last action is done; it has no result that matters.
    Done,
    Command(Cmd),
    /// A text message came in.
    Text(String),
    /// A message of another kind came in.
    OtherMessage,
    /// The connection was closed or broke.
    Closed,
    /// A search for the game window is over.
    Searched(Option<FoundWindow>),
    /// A capture is over; a picture comes with the time, in milliseconds since the Unix
    /// epoch.
    Captured { shot: Option<Screenshot>, at_ms: u64 },
    /// The time, in milliseconds since the Unix epoch.
    Stamp { at_ms: u64 },
}

/// What the agent does next.
#[derive(Debug)]
pub enum LinkAction {
    /// Wait so many seconds, then tell the time.
    Wait { seconds: u64 },
    Connect,
    /// Send the greeting over the new connection.
    Greet(String),
    /// From here on, let every part of the agent use the connection; then send this.
    Announce(String),
    /// Send this; it does not matter whether that succeeds.
    Send(String),
    /// Hand this to the page on this machine; it goes nowhere else.
    HandToPage(String),
    /// Wait for a command or a message.
    Listen,
    /// Search for the game window.
    Search,
    /// Capture this region of the window with this handle.
    Capture { handle: isize, region: Region },
    /// Tell the time at which a picture is handed over.
    Stamp,
    /// Tell the rest of the agent of new keybinds.
    RegisterHotkeys { capture: String, clear: String },
    /// Start the agent anew, in place of this one.
    Restart,
    /// Close the connection, wait so many seconds, then tell the time.
    HangUp { seconds: u64 },
    /// Nothing: the event was not one that is waited for.
    Idle,
}

/// The contents of an action. Messages are given by their members.
pub enum ActionView {
    Wait { seconds: u64 },
    Connect,
    Greet(Seq<(Seq<char>, ScalarView)>),
    Announce(Seq<(Seq<char>, ScalarView)>),
    Send(Seq<(Seq<char>, ScalarView)>),
    HandToPage(Seq<(Seq<char>, ScalarView)>),
    Listen,
    Search,
    Capture { handle: isize, region: Region },
    Stamp,
    RegisterHotkeys { capture: Seq<char>, clear: Seq<char> },
    Restart,
    HangUp { seconds: u64 },
    Idle,
}

/// The text is the message with these members.
pub open spec fn is_message(text: Seq<char>, members: Seq<(Seq<char>, ScalarView)>) -> bool {
    text == json_object_text(members) && reads_back(text, members)
}

/// The action has these contents.
pub open spec fn does(action: LinkAction, view: ActionView) -> bool {
    match (action, view) {
        (LinkAction::Wait { seconds: a }, ActionView::Wait { seconds: b }) => a == b,
        (LinkAction::Connect, ActionView::Connect) => true,
        (LinkAction::Greet(text), ActionView::Greet(members)) => is_message(text@, members),
        (LinkAction::Announce(text), ActionView::Announce(members)) => is_message(text@, members),
        (LinkAction::Send(text), ActionView::Send(members)) => is_message(text@, members),
        (LinkAction::HandToPage(text), ActionView::HandToPage(members)) => is_message(
            text@,
            members,
        ),
        (LinkAction::Listen, ActionView::Listen) => true,
        (LinkAction::Search, ActionView::Search) => true,
        (
            LinkAction::Capture { handle: a, region: b },
            ActionView::Capture { handle: c, region: d },
        ) => a == c && b == d,
        (LinkAction::Stamp, ActionView::Stamp) => true,
        (
            LinkAction::RegisterHotkeys { capture: a, clear: b },
            ActionView::RegisterHotkeys { capture: c, clear: d },
        ) => a@ == c && b@ == d,
        (LinkAction::Restart, ActionView::Restart) => true,
        (LinkAction::HangUp { seconds: a }, ActionView::HangUp { seconds: b }) => a == b,
        (LinkAction::Idle, ActionView::Idle) => true,
        _ => false,
    }
}

// ---------------------------------------------------------------------------
// What comes next
// ---------------------------------------------------------------------------

/// Where an event leads: the phase, what the agent knows, and what it does.
pub struct LinkStep {
    pub phase: PhaseView,
    pub agent: AgentView,
    pub action: ActionView,
}

/// A step that changes nothing of what the agent knows.
pub open spec fn proceed(agent: AgentView, phase: PhaseView, action: ActionView) -> LinkStep {
    LinkStep { phase, agent, action }
}

/// The connection is given up; the agent starts over with the token.
pub open spec fn give_up(agent: AgentView) -> LinkStep {
    proceed(agent, PhaseView::Token, ActionView::HangUp { seconds: RECONNECT_WAIT_SECS })
}

/// The next command or message is waited for.
pub open spec fn listen(agent: AgentView) -> LinkStep {
    proceed(agent, PhaseView::Listening, ActionView::Listen)
}

/// A message is sent, and the next command or message waited for after that.
pub open spec fn send(agent: AgentView, members: Seq<(Seq<char>, ScalarView)>) -> LinkStep {
    proceed(agent, PhaseView::Listening, ActionView::Send(members))
}

/// What the agent does on a request of the server.
pub open spec fn on_request(agent: AgentView, request: RequestView) -> LinkStep {
    match request {
        RequestView::Status => proceed(agent, PhaseView::Reporting, ActionView::Search),
        RequestView::Capture => proceed(
            agent,
            PhaseView::Locating { by_user: false },
            ActionView::Search,
        ),
        RequestView::Keybinds { capture, clear } => proceed(
            AgentView {
                capture_screen: capture,
                clear_screen: clear,
                hotkeys: rebound(agent.hotkeys, keybind(capture), keybind(clear)),
                ..agent
            },
            PhaseView::Listening,
            ActionView::RegisterHotkeys { capture, clear },
        ),
        RequestView::Restart => proceed(agent, PhaseView::Listening, ActionView::Restart),
        RequestView::AuthFailed => give_up(AgentView { token: None, ..agent }),
        RequestView::Nothing => listen(agent),
    }
}

/// What the agent does on a command of the user.
pub open spec fn on_command(agent: AgentView, cmd: Cmd) -> LinkStep {
    match cmd {
        Cmd::CaptureFortnite => proceed(
            agent,
            PhaseView::Locating { by_user: true },
            ActionView::Search,
        ),
        Cmd::CheckFortnite => proceed(agent, PhaseView::Checking, ActionView::Search),
        Cmd::ForceReconnect => give_up(agent),
    }
}

/// What the agent does when a capture is over. A picture that cannot be handed over is
/// dropped; without a picture only the user is told.
pub open spec fn on_captured(
    agent: AgentView,
    by_user: bool,
    width: u32,
    height: u32,
    shot: Option<Screenshot>,
    at_ms: u64,
) -> LinkStep {
    match shot {
        Some(shot) => if is_deliverable(shot) {
            proceed(
                agent,
                PhaseView::Stamping {
                    picture: base64_text(file_of(shot)),
                    width,
                    height,
                    captured_at_ms: at_ms,
                },
                ActionView::Stamp,
            )
        } else {
            listen(agent)
        },
        None => if by_user {
            send(agent, capture_error_members())
        } else {
            listen(agent)
        },
    }
}

/// Where an event leads.
pub open spec fn link_next(phase: PhaseView, agent: AgentView, event: LinkEvent) -> LinkStep {
    match (phase, event) {
        (PhaseView::Token, LinkEvent::Clock { now_ns }) => match usable_at(agent.token, now_ns) {
            Some(token) => proceed(agent, PhaseView::Connecting { token }, ActionView::Connect),
            None => proceed(agent, phase, ActionView::Wait { seconds: TOKEN_WAIT_SECS }),
        },
        (PhaseView::Connecting { token }, LinkEvent::Connected) => {
            let status = known_status(agent.game);
            proceed(
                agent,
                PhaseView::Greeting { status },
                ActionView::Greet(hello_members(token, status)),
            )
        },
        (PhaseView::Connecting { .. }, LinkEvent::ConnectFailed) => proceed(
            agent,
            PhaseView::Token,
            ActionView::Wait { seconds: RECONNECT_WAIT_SECS },
        ),
        (PhaseView::Greeting { status }, LinkEvent::Greeted { sent }) => if sent {
            proceed(agent, PhaseView::Listening, ActionView::Announce(status_members(status)))
        } else {
            proceed(agent, PhaseView::Token, ActionView::Wait { seconds: 0 })
        },
        (PhaseView::Listening, LinkEvent::Done) => listen(agent),
        (PhaseView::Listening, LinkEvent::Command(cmd)) => on_command(agent, cmd),
        (PhaseView::Listening, LinkEvent::Text(text)) => on_request(
            agent,
            request_in_text(json_document(text@)),
        ),
        (PhaseView::Listening, LinkEvent::OtherMessage) => listen(agent),
        (PhaseView::Listening, LinkEvent::Closed) => give_up(agent),
        (PhaseView::Locating { by_user }, LinkEvent::Searched(found)) => {
            let knowing = AgentView { game: located(agent.game, found), ..agent };
            match found {
                Some(w) => proceed(
                    knowing,
                    PhaseView::Capturing { by_user, width: w.width, height: w.height },
                    ActionView::Capture { handle: w.handle, region: region_of(w.width, w.height) },
                ),
                None => listen(knowing),
            }
        },
        (PhaseView::Capturing { by_user, width, height }, LinkEvent::Captured { shot, at_ms }) =>
            on_captured(agent, by_user, width, height, shot, at_ms),
        (
            PhaseView::Stamping { picture, width, height, captured_at_ms },
            LinkEvent::Stamp { at_ms },
        ) => proceed(
            agent,
            PhaseView::Listening,
            ActionView::HandToPage(
                capture_members(picture, width, height, captured_at_ms, at_ms),
            ),
        ),
        (PhaseView::Reporting, LinkEvent::Searched(found)) => send(
            AgentView { game: observed(agent.game, found), ..agent },
            status_members(status_of(found)),
        ),
        (PhaseView::Checking, LinkEvent::Searched(_)) => listen(agent),
        _ => proceed(agent, phase, ActionView::Idle),
    }
}

/// The phase, the agent and the action are those of a step.
pub open spec fn took(phase: LinkPhase, agent: Agent, action: LinkAction, step: LinkStep) -> bool {
    phase@ == step.phase && agent@ == step.agent && does(action, step.action)
}

fn obey_request(phase: &mut LinkPhase, agent: &mut Agent, request: ServerRequest) -> (action:
    LinkAction)
    ensures
        took(*final(phase), *final(agent), action, on_request(old(agent)@, request@)),
{
    match request {
        ServerRequest::Status => {
            *phase = LinkPhase::Reporting;
            LinkAction::Search
        },
        ServerRequest::Capture => {
            *phase = LinkPhase::Locating { by_user: false };
            LinkAction::Search
        },
        ServerRequest::Keybinds { capture, clear } => {
            agent.keybinds = KeybindConfig {
                capture_screen: capture.clone(),
                clear_screen: clear.clone(),
            };
            update_keybinds(&mut agent.hotkeys, capture.as_str(), clear.as_str());
            *phase = LinkPhase::Listening;
            LinkAction::RegisterHotkeys { capture, clear }
        },
        ServerRequest::Restart => {
            *phase = LinkPhase::Listening;
            LinkAction::Restart
        },
        ServerRequest::AuthFailed => {
            agent.token = None;
            *phase = LinkPhase::Token;
            LinkAction::HangUp { seconds: RECONNECT_WAIT_SECS }
        },
        ServerRequest::Nothing => {
            *phase = LinkPhase::Listening;
            LinkAction::Listen
        },
    }
}

fn obey_command(phase: &mut LinkPhase, agent: &Agent, cmd: Cmd) -> (action: LinkAction)
    ensures
        took(*final(phase), *agent, action, on_command(agent@, cmd)),
{
    match cmd {
        Cmd::CaptureFortnite => {
            *phase = LinkPhase::Locating { by_user: true };
            LinkAction::Search
        },
        Cmd::CheckFortnite => {
            *phase = LinkPhase::Checking;
            LinkAction::Search
        },
        Cmd::ForceReconnect => {
            *phase = LinkPhase::Token;
            LinkAction::HangUp { seconds: RECONNECT_WAIT_SECS }
        },
    }
}

fn use_picture(
    phase: &mut LinkPhase,
    agent: &Agent,
    by_user: bool,
    size: (u32, u32),
    shot: Option<Screenshot>,
    at_ms: u64,
) -> (action: LinkAction)
    requires
        shot matches Some(shot) ==> is_picture(shot),
    ensures
        took(
            *final(phase),
            *agent,
            action,
            on_captured(agent@, by_user, size.0, size.1, shot, at_ms),
        ),
{
    match shot {
        Some(shot) => match encode_screenshot(shot) {
            Some(picture) => {
                *phase = LinkPhase::Stamping {
                    picture,
                    width: size.0,
                    height: size.1,
                    captured_at_ms: at_ms,
                };
                LinkAction::Stamp
            },
            None => {
                *phase = LinkPhase::Listening;
                LinkAction::Listen
            },
        },
        None => {
            *phase = LinkPhase::Listening;
            if by_user {
                LinkAction::Send(capture_error_message())
            } else {
                LinkAction::Listen
            }
        },
    }
}

/// Takes an event, notes what it brings, and says what the agent does next.
pub fn ws_loop(phase: &mut LinkPhase, agent: &mut Agent, event: LinkEvent) -> (action:
    LinkAction)
    requires
        event matches LinkEvent::Captured { shot: Some(shot), .. } ==> is_picture(shot),
    ensures
        took(*final(phase), *final(agent), action, link_next(old(phase)@, old(agent)@, event)),
{
    match (&*phase, event) {
        (LinkPhase::Token, LinkEvent::Clock { now_ns }) => {
            match usable_token(&agent.token, now_ns) {
                Some(token) => {
                    *phase = LinkPhase::Connecting { token };
                    LinkAction::Connect
                },
                None => LinkAction::Wait { seconds: TOKEN_WAIT_SECS },
            }
        },
        (LinkPhase::Connecting { token }, LinkEvent::Connected) => {
            let status = ScreenStatusResponse {
                fortnite_running: agent.game.is_running,
                width: agent.game.width,
                height: agent.game.height,
            };
            let hello: String = hello_message(token.as_str(), &status);
            *phase = LinkPhase::Greeting { status };
            LinkAction::Greet(hello)
        },
        (LinkPhase::Connecting { .. }, LinkEvent::ConnectFailed) => {
            *phase = LinkPhase::Token;
            LinkAction::Wait { seconds: RECONNECT_WAIT_SECS }
        },
        (LinkPhase::Greeting { status }, LinkEvent::Greeted { sent }) => {
            if sent {
                let report: String = status_message(status);
                *phase = LinkPhase::Listening;
                LinkAction::Announce(report)
            } else {
                *phase = LinkPhase::Token;
                LinkAction::Wait { seconds: 0 }
            }
        },
        (LinkPhase::Listening, LinkEvent::Done) => LinkAction::Listen,
        (LinkPhase::Listening, LinkEvent::Command(cmd)) => obey_command(phase, agent, cmd),
        (LinkPhase::Listening, LinkEvent::Text(text)) => {
            let request: ServerRequest = read_request(text.as_str());
            obey_request(phase, agent, request)
        },
        (LinkPhase::Listening, LinkEvent::OtherMessage) => LinkAction::Listen,
        (LinkPhase::Listening, LinkEvent::Closed) => {
            *phase = LinkPhase::Token;
            LinkAction::HangUp { seconds: RECONNECT_WAIT_SECS }
        },
        (LinkPhase::Locating { by_user }, LinkEvent::Searched(found)) => {
            let by_user: bool = *by_user;
            locate(&mut agent.game, &found);
            match found {
                Some(w) => {
                    *phase = LinkPhase::Capturing { by_user, width: w.width, height: w.height };
                    let region: Region = reading_region(w.width, w.height);
                    LinkAction::Capture { handle: w.handle, region }
                },
                None => {
                    *phase = LinkPhase::Listening;
                    LinkAction::Listen
                },
            }
        },
        (
            LinkPhase::Capturing { by_user, width, height },
            LinkEvent::Captured { shot, at_ms },
        ) => {
            let by_user: bool = *by_user;
            let size: (u32, u32) = (*width, *height);
            use_picture(phase, agent, by_user, size, shot, at_ms)
        },
        (
            LinkPhase::Stamping { picture, width, height, captured_at_ms },
            LinkEvent::Stamp { at_ms },
        ) => {
            let message: String = capture_message(
                picture.as_str(),
                *width,
                *height,
                *captured_at_ms,
                at_ms,
            );
            *phase = LinkPhase::Listening;
            LinkAction::HandToPage(message)
        },
        (LinkPhase::Reporting, LinkEvent::Searched(found)) => {
            let status: ScreenStatusResponse = handle_screen_status(&mut agent.game, &found);
            *phase = LinkPhase::Listening;
            LinkAction::Send(status_message(&status))
        },
        (LinkPhase::Checking, LinkEvent::Searched(_)) => {
            *phase = LinkPhase::Listening;
            LinkAction::Listen
        },
        _ => LinkAction::Idle,
    }
}

/// Notes what the agent's own search for the game window found. Where the game has
/// started or stopped since, the report to send comes back.
pub fn periodic_check(agent: &mut Agent, found: &Option<FoundWindow>) -> (report: Option<String>)
    ensures
        final(agent)@ == (AgentView {
            game: rechecked(old(agent).game, *found),
            ..old(agent)@
        }),
        report is Some == is_reported(old(agent).game, *found),
        report matches Some(text) ==> is_message(text@, status_members(status_of(*found))),
{
    let changed: bool = recheck(&mut agent.game, found);
    if changed {
        Some(status_message(&screen_status(found)))
    } else {
        None
    }
}

// ---------------------------------------------------------------------------
// Laws
// ---------------------------------------------------------------------------

/// The connection is open: the greeting was sent.
pub open spec fn is_open(phase: PhaseView) -> bool {
    match phase {
        PhaseView::Token | PhaseView::Connecting { .. } | PhaseView::Greeting { .. } => false,
        _ => true,
    }
}

/// The agent connects only with a token that has not expired at that time, and it is
/// that token which the greeting carries.
pub proof fn law_only_fresh_tokens_are_used(
    phase: PhaseView,
    agent: AgentView,
    event: LinkEvent,
    later: AgentView,
)
    requires
        link_next(phase, agent, event).action is Connect,
    ensures
        ({
            let connecting = link_next(phase, agent, event).phase;
            let greeting = link_next(connecting, later, LinkEvent::Connected);
            &&& event is Clock
            &&& usable_at(agent.token, event->now_ns) matches Some(token)
            &&& greeting.action == ActionView::Greet(
                hello_members(token, known_status(later.game)),
            )
        }),
{
}

/// The greeting comes first: a connection opens only by the report that follows a
/// greeting that was sent, and other messages are sent only over an open connection.
pub proof fn law_greeting_comes_first(phase: PhaseView, agent: AgentView, event: LinkEvent)
    ensures
        ({
            let step = link_next(phase, agent, event);
            &&& !is_open(phase) && is_open(step.phase) ==> {
                &&& phase is Greeting
                &&& event matches LinkEvent::Greeted { sent } && sent
                &&& step.action is Announce
            }
            &&& step.action is Send ==> is_open(phase) && is_open(step.phase)
            &&& step.action is Greet ==> phase is Connecting && step.phase is Greeting
        }),
{
}

/// Whenever a connection ends, the agent goes back to its token, and it closes what
/// was open.
pub proof fn law_ended_connections_are_closed(phase: PhaseView, agent: AgentView, event: LinkEvent)
    ensures
        ({
            let step = link_next(phase, agent, event);
            is_open(phase) && !is_open(step.phase) ==> {
                &&& step.phase is Token
                &&& step.action == ActionView::HangUp { seconds: RECONNECT_WAIT_SECS }
            }
        }),
{
}

/// A token that the server refuses is forgotten, and without a token the agent never
/// connects.
pub proof fn law_refused_tokens_are_forgotten(agent: AgentView, text: String, now_ns: i128)
    requires
        request_in_text(json_document(text@)) is AuthFailed,
    ensures
        ({
            let step = link_next(PhaseView::Listening, agent, LinkEvent::Text(text));
            &&& step.agent == AgentView { token: None, ..agent }
            &&& step.phase is Token
            &&& step.action is HangUp
            &&& link_next(step.phase, step.agent, LinkEvent::Clock { now_ns }).action
                == ActionView::Wait { seconds: TOKEN_WAIT_SECS }
        }),
{
}

/// The request that a message in this phase makes.
pub open spec fn request_made(phase: PhaseView, event: LinkEvent) -> RequestView {
    match (phase, event) {
        (PhaseView::Listening, LinkEvent::Text(text)) => request_in_text(json_document(text@)),
        _ => RequestView::Nothing,
    }
}

/// Nothing but a refusal by the server touches the token, and nothing but its request
/// for new keybinds touches the hotkeys.
pub proof fn law_only_requests_change_settings(
    phase: PhaseView,
    agent: AgentView,
    event: LinkEvent,
)
    ensures
        ({
            let after = link_next(phase, agent, event).agent;
            let request = request_made(phase, event);
            &&& request !is AuthFailed ==> after.token == agent.token
            &&& request !is Keybinds ==> {
                &&& after.hotkeys == agent.hotkeys
                &&& after.capture_screen == agent.capture_screen
                &&& after.clear_screen == agent.clear_screen
            }
        }),
{
}

/// A request for the status is answered with what a search finds, and the agent
/// remembers it.
pub proof fn law_status_requests_are_answered(
    agent: AgentView,
    text: String,
    found: Option<FoundWindow>,
)
    requires
        request_in_text(json_document(text@)) is Status,
    ensures
        ({
            let asked = link_next(PhaseView::Listening, agent, LinkEvent::Text(text));
            let answered = link_next(asked.phase, asked.agent, LinkEvent::Searched(found));
            &&& asked.action is Search
            &&& answered.action == ActionView::Send(status_members(status_of(found)))
            &&& answered.agent == AgentView { game: observed(agent.game, found), ..agent }
            &&& answered.phase is Listening
        }),
{
}

/// A capture, whoever asks for it, ends with the picture in the hands of the page,
/// together with the size of the window that was found, and the times at which it was
/// taken and handed over.
pub proof fn law_captures_are_delivered(
    agent: AgentView,
    asked: LinkEvent,
    w: FoundWindow,
    shot: Screenshot,
    captured_at_ms: u64,
    sent_at_ms: u64,
)
    requires
        asked == LinkEvent::Command(Cmd::CaptureFortnite) || request_made(
            PhaseView::Listening,
            asked,
        ) is Capture,
        is_deliverable(shot),
    ensures
        ({
            let a = link_next(PhaseView::Listening, agent, asked);
            let b = link_next(a.phase, a.agent, LinkEvent::Searched(Some(w)));
            let c = link_next(
                b.phase,
                b.agent,
                LinkEvent::Captured { shot: Some(shot), at_ms: captured_at_ms },
            );
            let d = link_next(c.phase, c.agent, LinkEvent::Stamp { at_ms: sent_at_ms });
            &&& a.action is Search
            &&& b.action == ActionView::Capture {
                handle: w.handle,
                region: region_of(w.width, w.height),
            }
            &&& c.action is Stamp
            &&& d.action == ActionView::HandToPage(
                capture_members(
                    base64_text(file_of(shot)),
                    w.width,
                    w.height,
                    captured_at_ms,
                    sent_at_ms,
                ),
            )
            &&& d.phase is Listening
        }),
{
}

/// A capture that fails is answered with an error where the user asked for it; the
/// server is not answered. Where there is no game window, nobody is, and the agent
/// takes the game not to run.
pub proof fn law_failed_captures(
    agent: AgentView,
    asked: LinkEvent,
    w: FoundWindow,
    at_ms: u64,
)
    requires
        asked == LinkEvent::Command(Cmd::CaptureFortnite) || request_made(
            PhaseView::Listening,
            asked,
        ) is Capture,
    ensures
        ({
            let a = link_next(PhaseView::Listening, agent, asked);
            let b = link_next(a.phase, a.agent, LinkEvent::Searched(Some(w)));
            let c = link_next(b.phase, b.agent, LinkEvent::Captured { shot: None, at_ms });
            let lost = link_next(a.phase, a.agent, LinkEvent::Searched(None));
            &&& asked is Command ==> c.action == ActionView::Send(capture_error_members())
            &&& asked is Text ==> c.action is Listen
            &&& lost.action is Listen
            &&& !lost.agent.game.is_running
            &&& lost.agent.game.hwnd is None
        }),
{
}

/// Once a search has found no game window, whoever asked for the search, the capture
/// hotkey does nothing.
pub proof fn law_hotkey_sleeps_without_the_game(
    game: FortniteWindowState,
    last_ms: u64,
    is_foreground: bool,
    now_ms: u64,
)
    ensures
        press_outcome(last_ms, observed(game, None).is_running, is_foreground, now_ms)
            is NotInGame,
        press_outcome(last_ms, rechecked(game, None).is_running, is_foreground, now_ms)
            is NotInGame,
        press_outcome(last_ms, located(game, None).is_running, is_foreground, now_ms)
            is NotInGame,
{
}

/// Whether the agent's own search leads to a report.
pub open spec fn is_reported(game: FortniteWindowState, found: Option<FoundWindow>) -> bool {
    game.is_running != found is Some
}

/// After a search of the agent's own, the next one leads to a report exactly when the
/// game has started or stopped from the one to the other.
pub proof fn law_only_changes_are_reported(
    game: FortniteWindowState,
    first: Option<FoundWindow>,
    second: Option<FoundWindow>,
)
    ensures
        is_reported(rechecked(game, first), second) == (first is Some != second is Some),
{
}

/// The action and the phase belong together: the phase waits for what the action brings.
pub open spec fn is_awaited(phase: PhaseView, action: ActionView) -> bool {
    match action {
        ActionView::Wait { .. } | ActionView::HangUp { .. } => phase is Token,
        ActionView::Connect => phase is Connecting,
        ActionView::Greet(_) => phase is Greeting,
        ActionView::Announce(_)
        | ActionView::Send(_)
        | ActionView::HandToPage(_)
        | ActionView::Listen
        | ActionView::RegisterHotkeys { .. }
        | ActionView::Restart => phase is Listening,
        ActionView::Search => phase is Locating || phase is Reporting || phase is Checking,
        ActionView::Capture { .. } => phase is Capturing,
        ActionView::Stamp => phase is Stamping,
        ActionView::Idle => false,
    }
}

/// The event is one that the action can bring.
pub open spec fn is_brought_by(event: LinkEvent, action: ActionView) -> bool {
    match action {
        ActionView::Wait { .. } | ActionView::HangUp { .. } => event is Clock,
        ActionView::Connect => event is Connected || event is ConnectFailed,
        ActionView::Greet(_) => event is Greeted,
        ActionView::Announce(_)
        | ActionView::Send(_)
        | ActionView::HandToPage(_)
        | ActionView::RegisterHotkeys { .. }
        | ActionView::Restart => event is Done,
        ActionView::Listen => event is Command || event is Text || event is OtherMessage
            || event is Closed,
        ActionView::Search => event is Searched,
        ActionView::Capture { .. } => event is Captured,
        ActionView::Stamp => event is Stamp,
        ActionView::Idle => false,
    }
}

/// The connection never gets stuck: as long as every action is answered with an event
/// that it can bring, there is a next action, and it can be answered in turn. The first
/// action is to tell the time.
pub proof fn law_connection_never_gets_stuck(
    phase: PhaseView,
    agent: AgentView,
    action: ActionView,
    event: LinkEvent,
)
    requires
        is_awaited(phase, action),
        is_brought_by(event, action),
    ensures
        ({
            let step = link_next(phase, agent, event);
            !(step.action is Idle) && is_awaited(step.phase, step.action)
        }),
        is_awaited(PhaseView::Token, ActionView::Wait { seconds: 0 }),
{
}

/// The user stays logged in: started again from its config file, the agent connects just
/// when it would have without the restart, and with the same token. A token that the
/// server has refused does not come back.
pub proof fn law_login_survives_restart(config: Seq<char>, agent: AgentView, now_ns: i128)
    requires
        reads_back(config, config_members(agent.token)),
    ensures
        ({
            let again = initial_agent(token_in_config(json_document(config)));
            let event = LinkEvent::Clock { now_ns };
            let kept = link_next(PhaseView::Token, agent, event);
            let restarted = link_next(PhaseView::Token, again, event);
            &&& again.token == agent.token
            &&& restarted.phase == kept.phase
            &&& restarted.action == kept.action
        }),
{
    law_token_survives_restart(config, agent.token);
}

/// A message that carries a picture.
pub open spec fn carries_picture(members: Seq<(Seq<char>, ScalarView)>) -> bool {
    exists|i: int| 0 <= i < members.len() && (#[trigger] members[i]).0 == "pngBase64"@
}

/// No picture of the screen ever goes to the server: neither in what the connection
/// sends, in any phase and whatever happens, nor in the reports and pings beside it.
pub proof fn law_no_picture_goes_to_the_server(
    phase: PhaseView,
    agent: AgentView,
    event: LinkEvent,
    status: ScreenStatusResponse,
    ts_ms: int,
)
    ensures
        match link_next(phase, agent, event).action {
            ActionView::Greet(members) => !carries_picture(members),
            ActionView::Announce(members) => !carries_picture(members),
            ActionView::Send(members) => !carries_picture(members),
            _ => true,
        },
        !carries_picture(status_members(status)),
        !carries_picture(ping_members(ts_ms)),
{
    reveal_strlit("pngBase64");
    reveal_strlit("type");
    reveal_strlit("token");
    reveal_strlit("role");
    reveal_strlit("version");
    reveal_strlit("fortnite_running");
    reveal_strlit("width");
    reveal_strlit("height");
    reveal_strlit("error");
    reveal_strlit("ts");
    assert("pngBase64"@.len() == 9);
    assert("type"@.len() == 4);
    assert("token"@.len() == 5);
    assert("role"@.len() == 4);
    assert("version"@.len() == 7);
    assert("fortnite_running"@.len() == 16);
    assert("width"@.len() == 5);
    assert("height"@.len() == 6);
    assert("error"@.len() == 5);
    assert("ts"@.len() == 2);
}

/// The message says of the game what is known of it: whether it runs, how wide and how
/// high it is.
pub open spec fn tells_of(members: Seq<(Seq<char>, ScalarView)>, game: FortniteWindowState) -> bool {
    &&& says(members, "fortnite_running"@, ScalarView::Flag(game.is_running))
    &&& says(members, "width"@, ScalarView::Count(game.width as u64))
    &&& says(members, "height"@, ScalarView::Count(game.height as u64))
}

/// Once connected, the agent greets with the token that it connected with and tells of the
/// game as it knows it; the report that follows the greeting tells the same, whatever the
/// agent has learned in between.
pub proof fn law_greeting_and_report_tell_of_the_game(
    token: Seq<char>,
    agent: AgentView,
    later: AgentView,
)
    ensures
        ({
            let greeted = link_next(PhaseView::Connecting { token }, agent, LinkEvent::Connected);
            let announced = link_next(greeted.phase, later, LinkEvent::Greeted { sent: true });
            &&& greeted.agent == agent
            &&& greeted.action matches ActionView::Greet(hello) && {
                &&& says_text(hello, "type"@, "hello"@)
                &&& says_text(hello, "token"@, token)
                &&& says_text(hello, "role"@, "agent"@)
                &&& says_text(hello, "version"@, "2.3.0"@)
                &&& tells_of(hello, agent.game)
            }
            &&& announced.agent == later
            &&& announced.phase is Listening
            &&& announced.action matches ActionView::Announce(report) && {
                &&& says_text(report, "type"@, "screen:status:result"@)
                &&& tells_of(report, agent.game)
            }
        }),
{
    let status = known_status(agent.game);
    law_greetings_say_what_is_known(token, status);
    law_reports_say_what_is_known(status);
}

/// The agent waits for a token that has not expired, two seconds at a time, and then
/// connects with it.
pub proof fn law_tokens_are_awaited(agent: AgentView, now_ns: i128)
    ensures
        ({
            let step = link_next(PhaseView::Token, agent, LinkEvent::Clock { now_ns });
            let fresh = agent.token is Some && now_ns < agent.token->0.expires_at;
            &&& step.agent == agent
            &&& fresh ==> step.action is Connect && step.phase == PhaseView::Connecting {
                token: agent.token->0.token,
            }
            &&& !fresh ==> step.phase is Token && step.action == ActionView::Wait { seconds: 2 }
        }),
{
}

/// How long the agent waits after a connection that failed or ended, and that it starts
/// over with the token each time: five seconds, but for a greeting that could not be sent.
pub proof fn law_waits_before_the_next_connection(
    token: Seq<char>,
    status: ScreenStatusResponse,
    agent: AgentView,
)
    ensures
        ({
            let failed = link_next(
                PhaseView::Connecting { token },
                agent,
                LinkEvent::ConnectFailed,
            );
            let unsent = link_next(
                PhaseView::Greeting { status },
                agent,
                LinkEvent::Greeted { sent: false },
            );
            let closed = link_next(PhaseView::Listening, agent, LinkEvent::Closed);
            let forced = link_next(
                PhaseView::Listening,
                agent,
                LinkEvent::Command(Cmd::ForceReconnect),
            );
            &&& failed.action == ActionView::Wait { seconds: 5 }
            &&& unsent.action == ActionView::Wait { seconds: 0 }
            &&& closed.action == ActionView::HangUp { seconds: 5 }
            &&& forced.action == ActionView::HangUp { seconds: 5 }
            &&& failed.phase is Token && unsent.phase is Token && closed.phase is Token
                && forced.phase is Token
            &&& failed.agent == agent && unsent.agent == agent && closed.agent == agent
                && forced.agent == agent
        }),
{
}

/// Where each command of the user and each request of the server leads first.
pub proof fn law_what_is_asked_for_is_begun(agent: AgentView, text: String)
    ensures
        ({
            let request = request_in_text(json_document(text@));
            let asked = link_next(PhaseView::Listening, agent, LinkEvent::Text(text));
            let capture = link_next(
                PhaseView::Listening,
                agent,
                LinkEvent::Command(Cmd::CaptureFortnite),
            );
            let check = link_next(
                PhaseView::Listening,
                agent,
                LinkEvent::Command(Cmd::CheckFortnite),
            );
            &&& capture == (LinkStep {
                phase: PhaseView::Locating { by_user: true },
                agent,
                action: ActionView::Search,
            })
            &&& check == (LinkStep { phase: PhaseView::Checking, agent, action: ActionView::Search })
            &&& request is Status ==> asked == (LinkStep {
                phase: PhaseView::Reporting,
                agent,
                action: ActionView::Search,
            })
            &&& request is Capture ==> asked == (LinkStep {
                phase: PhaseView::Locating { by_user: false },
                agent,
                action: ActionView::Search,
            })
            &&& request is Restart ==> asked == (LinkStep {
                phase: PhaseView::Listening,
                agent,
                action: ActionView::Restart,
            })
            &&& request is Nothing ==> asked == (LinkStep {
                phase: PhaseView::Listening,
                agent,
                action: ActionView::Listen,
            })
        }),
{
}

/// A report that was asked for tells what the search has found, and the agent notes it; a
/// check of the user changes nothing.
pub proof fn law_searches_are_reported(agent: AgentView, found: Option<FoundWindow>)
    ensures
        ({
            let reported = link_next(PhaseView::Reporting, agent, LinkEvent::Searched(found));
            let checked = link_next(PhaseView::Checking, agent, LinkEvent::Searched(found));
            &&& reported.phase is Listening
            &&& reported.agent == (AgentView { game: reported.agent.game, ..agent })
            &&& reported.agent.game.hwnd == agent.game.hwnd
            &&& reported.agent.game.is_running == found is Some
            &&& found matches Some(w) ==> reported.agent.game.width == w.width
                && reported.agent.game.height == w.height
            &&& found is None ==> reported.agent.game.width == 0 && reported.agent.game.height == 0
            &&& reported.action matches ActionView::Send(report) && {
                &&& says_text(report, "type"@, "screen:status:result"@)
                &&& tells_of(report, reported.agent.game)
            }
            &&& checked == (LinkStep {
                phase: PhaseView::Listening,
                agent,
                action: ActionView::Listen,
            })
        }),
{
    law_reports_say_what_is_known(status_of(found));
}

/// A window that was found for a capture is noted with its handle and its size, and it is
/// that window which is captured; without one the game is taken not to run, and no capture
/// follows.
pub proof fn law_found_window_is_captured(
    by_user: bool,
    agent: AgentView,
    found: Option<FoundWindow>,
)
    ensures
        ({
            let step = link_next(
                PhaseView::Locating { by_user },
                agent,
                LinkEvent::Searched(found),
            );
            let game = step.agent.game;
            &&& step.agent == (AgentView { game, ..agent })
            &&& found matches Some(w) ==> {
                &&& game.is_running && game.hwnd == Some(w.handle)
                &&& game.width == w.width && game.height == w.height
                &&& step.action matches ActionView::Capture { handle, .. } && handle == w.handle
                &&& step.phase == PhaseView::Capturing { by_user, width: w.width, height: w.height }
            }
            &&& found is None ==> {
                &&& !game.is_running && game.hwnd is None
                &&& game.width == agent.game.width && game.height == agent.game.height
                &&& step.action is Listen
                &&& step.phase is Listening
            }
        }),
{
}

/// A picture that JPEG can hold and that can be written as text is handed to the page: the
/// Base64 text of its JPEG file at quality 85, with the size of the window and both times.
pub proof fn law_pictures_are_handed_over(
    by_user: bool,
    width: u32,
    height: u32,
    agent: AgentView,
    later: AgentView,
    shot: Screenshot,
    captured_at_ms: u64,
    sent_at_ms: u64,
)
    requires
        1 <= shot.width <= 65535,
        1 <= shot.height <= 65535,
        4 * ((jpeg_file(shot.width, shot.height, shot.rgba@, 85).len() + 2) / 3) <= isize::MAX,
    ensures
        ({
            let encoded = link_next(
                PhaseView::Capturing { by_user, width, height },
                agent,
                LinkEvent::Captured { shot: Some(shot), at_ms: captured_at_ms },
            );
            let handed = link_next(encoded.phase, later, LinkEvent::Stamp { at_ms: sent_at_ms });
            &&& encoded.action is Stamp
            &&& encoded.agent == agent
            &&& handed.phase is Listening
            &&& handed.agent == later
            &&& handed.action matches ActionView::HandToPage(message) && {
                &&& says_text(message, "type"@, "screen:capture:result"@)
                &&& says_text(
                    message,
                    "pngBase64"@,
                    base64_text(jpeg_file(shot.width, shot.height, shot.rgba@, 85)),
                )
                &&& says(message, "width"@, ScalarView::Count(width as u64))
                &&& says(message, "height"@, ScalarView::Count(height as u64))
                &&& says(message, "capturedAt"@, ScalarView::Count(captured_at_ms))
                &&& says(message, "sentAt"@, ScalarView::Count(sent_at_ms))
            }
        }),
{
    law_pictures_come_with_their_sizes_and_times(
        base64_text(file_of(shot)),
        width,
        height,
        captured_at_ms,
        sent_at_ms,
    );
}

/// Without a picture the user is told so, and the server is not; a picture that JPEG cannot
/// hold is dropped without a word.
pub proof fn law_missing_pictures(
    by_user: bool,
    width: u32,
    height: u32,
    agent: AgentView,
    shot: Option<Screenshot>,
    at_ms: u64,
)
    requires
        shot matches Some(s) ==> !(1 <= s.width <= 65535 && 1 <= s.height <= 65535),
    ensures
        ({
            let step = link_next(
                PhaseView::Capturing { by_user, width, height },
                agent,
                LinkEvent::Captured { shot, at_ms },
            );
            &&& step.agent == agent
            &&& step.phase is Listening
            &&& shot is None && by_user ==> (step.action matches ActionView::Send(message) && {
                &&& says_text(message, "type"@, "screen:capture:error"@)
                &&& says_text(message, "error"@, "Failed to capture window"@)
            })
            &&& shot is Some || !by_user ==> step.action is Listen
        }),
{
    law_capture_errors_say_so();
}

/// New keybinds are noted as they were named, and the hotkeys become what they bind: key
/// and modifiers each, where the keybind names a key, and otherwise what they were. The
/// rest of the agent is told the same two texts.
pub proof fn law_new_keybinds_are_taken_over(
    agent: AgentView,
    text: String,
    capture: Seq<char>,
    clear: Seq<char>,
)
    requires
        request_in_text(json_document(text@)) == (RequestView::Keybinds { capture, clear }),
    ensures
        ({
            let step = link_next(PhaseView::Listening, agent, LinkEvent::Text(text));
            let after = step.agent;
            &&& step.phase is Listening
            &&& step.action == ActionView::RegisterHotkeys { capture, clear }
            &&& after.capture_screen == capture
            &&& after.clear_screen == clear
            &&& after.token == agent.token
            &&& after.game == agent.game
            &&& keybind(capture) matches Some((vk, mods)) ==> after.hotkeys.capture_key_code == vk
                && after.hotkeys.capture_modifiers == mods
            &&& keybind(capture) is None ==> after.hotkeys.capture_key_code
                == agent.hotkeys.capture_key_code && after.hotkeys.capture_modifiers
                == agent.hotkeys.capture_modifiers
            &&& keybind(clear) matches Some((vk, mods)) ==> after.hotkeys.clear_key_code == vk
                && after.hotkeys.clear_modifiers == mods
            &&& keybind(clear) is None ==> after.hotkeys.clear_key_code
                == agent.hotkeys.clear_key_code && after.hotkeys.clear_modifiers
                == agent.hotkeys.clear_modifiers
            &&& after.hotkeys.capture_key_was_down == agent.hotkeys.capture_key_was_down
        }),
{
}

/// An agent that has just started knows nothing of the game, has F8 and F9 for hotkeys, and
/// the token that it was given.
pub proof fn law_fresh_agents_know_their_token_only(token: Option<TokenView>)
    ensures
        ({
            let agent = initial_agent(token);
            &&& agent.token == token
            &&& !agent.game.is_running && agent.game.hwnd is None
            &&& agent.game.width == 0 && agent.game.height == 0
            &&& agent.capture_screen == "F8"@ && agent.clear_screen == "F9"@
            &&& agent.hotkeys.capture_key_code == 0x77 && agent.hotkeys.capture_modifiers == 0
            &&& agent.hotkeys.clear_key_code == 0x78 && agent.hotkeys.clear_modifiers == 0
            &&& !agent.hotkeys.capture_key_was_down
        }),
{
}

/// A message that is no text, and an errand that is done, change nothing: the agent listens
/// on. What it does not wait for changes nothing either.
pub proof fn law_listening_goes_on(phase: PhaseView, agent: AgentView, event: LinkEvent)
    requires
        event is Done || event is OtherMessage,
    ensures
        link_next(phase, agent, event).phase == phase,
        link_next(phase, agent, event).agent == agent,
        link_next(phase, agent, event).action is Listen <==> phase is Listening,
        link_next(phase, agent, event).action is Idle <==> !(phase is Listening),
{
}

} // verus!
