//! The messages between the agent, the server and the page.

use vstd::prelude::*;
use vstd::string::*;
use crate::json::{
    JsonView, ObjectBuilder, ScalarView, get_member, get_text, json_contents, json_document,
    json_object_text, law_members_are_said, law_object_holds_its_members, member, member_text,
    read_json, reads_back, says, says_text,
};
use crate::paths::text_of;
use crate::registry::agent_version;
use crate::status::ScreenStatusResponse;
use crate::text::same_text;

verus! {

// ---------------------------------------------------------------------------
// Messages of the agent
// ---------------------------------------------------------------------------

/// The members of a ping.
pub open spec fn ping_members(ts_ms: int) -> Seq<(Seq<char>, ScalarView)> {
    seq![("type"@, ScalarView::Text("ping"@)), ("ts"@, ScalarView::Count(ts_ms as u64))]
}

/// The members of a report on the game.
pub open spec fn status_members(status: ScreenStatusResponse) -> Seq<(Seq<char>, ScalarView)> {
    seq![
        ("type"@, ScalarView::Text("screen:status:result"@)),
        ("fortnite_running"@, ScalarView::Flag(status.fortnite_running)),
        ("width"@, ScalarView::Count(status.width as u64)),
        ("height"@, ScalarView::Count(status.height as u64)),
    ]
}

/// The members of the greeting that opens a connection.
pub open spec fn hello_members(token: Seq<char>, status: ScreenStatusResponse) -> Seq<
    (Seq<char>, ScalarView),
> {
    seq![
        ("type"@, ScalarView::Text("hello"@)),
        ("token"@, ScalarView::Text(token)),
        ("role"@, ScalarView::Text("agent"@)),
        ("version"@, ScalarView::Text("2.3.0"@)),
        ("fortnite_running"@, ScalarView::Flag(status.fortnite_running)),
        ("width"@, ScalarView::Count(status.width as u64)),
        ("height"@, ScalarView::Count(status.height as u64)),
    ]
}

/// The members of the message that hands a picture to the page.
pub open spec fn capture_members(
    picture: Seq<char>,
    width: u32,
    height: u32,
    captured_at_ms: u64,
    sent_at_ms: u64,
) -> Seq<(Seq<char>, ScalarView)> {
    seq![
        ("type"@, ScalarView::Text("screen:capture:result"@)),
        ("pngBase64"@, ScalarView::Text(picture)),
        ("width"@, ScalarView::Count(width as u64)),
        ("height"@, ScalarView::Count(height as u64)),
        ("capturedAt"@, ScalarView::Count(captured_at_ms)),
        ("sentAt"@, ScalarView::Count(sent_at_ms)),
    ]
}

/// The members of a message that no picture could be taken.
pub open spec fn capture_error_members() -> Seq<(Seq<char>, ScalarView)> {
    seq![
        ("type"@, ScalarView::Text("screen:capture:error"@)),
        ("error"@, ScalarView::Text("Failed to capture window"@)),
    ]
}

/// Writes a ping with the time in milliseconds since the Unix epoch. JSON numbers hold
/// it while it fits in 64 bits.
pub fn ping_message(ts_ms: u128) -> (text: String)
    requires
        ts_ms <= u64::MAX,
    ensures
        text@ == json_object_text(ping_members(ts_ms as int)),
        reads_back(text@, ping_members(ts_ms as int)),
{
    let mut object: ObjectBuilder = ObjectBuilder::new();
    object.text("type", "ping");
    object.count("ts", ts_ms as u64);
    assert(object@ =~= ping_members(ts_ms as int));
    object.write()
}

/// Writes a report on the game.
pub fn status_message(status: &ScreenStatusResponse) -> (text: String)
    ensures
        text@ == json_object_text(status_members(*status)),
        reads_back(text@, status_members(*status)),
{
    let mut object: ObjectBuilder = ObjectBuilder::new();
    object.text("type", "screen:status:result");
    object.flag("fortnite_running", status.fortnite_running);
    object.count("width", status.width as u64);
    object.count("height", status.height as u64);
    assert(object@ =~= status_members(*status));
    object.write()
}

/// Writes the greeting that opens a connection.
pub fn hello_message(token: &str, status: &ScreenStatusResponse) -> (text: String)
    ensures
        text@ == json_object_text(hello_members(token@, *status)),
        reads_back(text@, hello_members(token@, *status)),
{
    let mut object: ObjectBuilder = ObjectBuilder::new();
    object.text("type", "hello");
    object.text("token", token);
    object.text("role", "agent");
    object.text("version", agent_version().as_str());
    object.flag("fortnite_running", status.fortnite_running);
    object.count("width", status.width as u64);
    object.count("height", status.height as u64);
    assert(object@ =~= hello_members(token@, *status));
    object.write()
}

/// Writes the message that hands a picture to the page.
pub fn capture_message(
    picture: &str,
    width: u32,
    height: u32,
    captured_at_ms: u64,
    sent_at_ms: u64,
) -> (text: String)
    ensures
        text@ == json_object_text(
            capture_members(picture@, width, height, captured_at_ms, sent_at_ms),
        ),
        reads_back(
            text@,
            capture_members(picture@, width, height, captured_at_ms, sent_at_ms),
        ),
{
    let mut object: ObjectBuilder = ObjectBuilder::new();
    object.text("type", "screen:capture:result");
    object.text("pngBase64", picture);
    object.count("width", width as u64);
    object.count("height", height as u64);
    object.count("capturedAt", captured_at_ms);
    object.count("sentAt", sent_at_ms);
    assert(object@ =~= capture_members(picture@, width, height, captured_at_ms, sent_at_ms));
    object.write()
}

/// Writes the message that no picture could be taken.
pub fn capture_error_message() -> (text: String)
    ensures
        text@ == json_object_text(capture_error_members()),
        reads_back(text@, capture_error_members()),
{
    let mut object: ObjectBuilder = ObjectBuilder::new();
    object.text("type", "screen:capture:error");
    object.text("error", "Failed to capture window");
    assert(object@ =~= capture_error_members());
    object.write()
}

/// The members of the answer to a page that asks for a picture before there is one.
pub open spec fn no_capture_members() -> Seq<(Seq<char>, ScalarView)> {
    seq![
        ("type"@, ScalarView::Text("screen:capture:error"@)),
        ("error"@, ScalarView::Text("No capture yet"@)),
    ]
}

/// Answers a page that asks for the latest picture.
pub fn handle_screen_capture(latest: &Option<String>) -> (text: String)
    ensures
        match latest {
            Some(message) => text@ == message@,
            None => text@ == json_object_text(no_capture_members()) && reads_back(
                text@,
                no_capture_members(),
            ),
        },
{
    match latest {
        Some(message) => message.clone(),
        None => {
            let mut object: ObjectBuilder = ObjectBuilder::new();
            object.text("type", "screen:capture:error");
            object.text("error", "No capture yet");
            assert(object@ =~= no_capture_members());
            object.write()
        },
    }
}

// ---------------------------------------------------------------------------
// Messages from the server
// ---------------------------------------------------------------------------

/// The keybinds in a message, each where it is given.
#[derive(Debug)]
pub struct KeybindFields {
    pub capture_screen: Option<String>,
    pub clear_screen: Option<String>,
}

/// What the agent reads of a message.
#[derive(Debug)]
pub struct ServerDocument {
    pub kind: Option<String>,
    pub reason: Option<String>,
    pub keybinds: Option<KeybindFields>,
}

/// The contents of the keybinds in a message.
pub struct KeybindFieldsView {
    pub capture_screen: Option<Seq<char>>,
    pub clear_screen: Option<Seq<char>>,
}

/// The contents of what the agent reads of a message.
pub struct DocumentView {
    pub kind: Option<Seq<char>>,
    pub reason: Option<Seq<char>>,
    pub keybinds: Option<KeybindFieldsView>,
}

impl View for ServerDocument {
    type V = DocumentView;

    open spec fn view(&self) -> DocumentView {
        DocumentView {
            kind: text_of(self.kind),
            reason: text_of(self.reason),
            keybinds: match self.keybinds {
                Some(fields) => Some(
                    KeybindFieldsView {
                        capture_screen: text_of(fields.capture_screen),
                        clear_screen: text_of(fields.clear_screen),
                    },
                ),
                None => None,
            },
        }
    }
}

/// What the server asks for.
#[derive(Debug)]
pub enum ServerRequest {
    /// Say whether the game runs.
    Status,
    /// Capture the game window.
    Capture,
    /// Bind the hotkeys anew.
    Keybinds { capture: String, clear: String },
    /// Start the agent anew.
    Restart,
    /// The token was refused.
    AuthFailed,
    /// Nothing that the agent acts on.
    Nothing,
}

/// The contents of a request.
pub enum RequestView {
    Status,
    Capture,
    Keybinds { capture: Seq<char>, clear: Seq<char> },
    Restart,
    AuthFailed,
    Nothing,
}

impl View for ServerRequest {
    type V = RequestView;

    open spec fn view(&self) -> RequestView {
        match self {
            ServerRequest::Status => RequestView::Status,
            ServerRequest::Capture => RequestView::Capture,
            ServerRequest::Keybinds { capture, clear } => RequestView::Keybinds {
                capture: capture@,
                clear: clear@,
            },
            ServerRequest::Restart => RequestView::Restart,
            ServerRequest::AuthFailed => RequestView::AuthFailed,
            ServerRequest::Nothing => RequestView::Nothing,
        }
    }
}

/// A text, or another where there is none.
pub open spec fn text_or(text: Option<Seq<char>>, otherwise: Seq<char>) -> Seq<char> {
    match text {
        Some(t) => t,
        None => otherwise,
    }
}

/// What the agent reads of a JSON value.
pub open spec fn document_of(value: JsonView) -> DocumentView {
    DocumentView {
        kind: member_text(value, "type"@),
        reason: member_text(value, "reason"@),
        keybinds: match member(value, "keybinds"@) {
            Some(fields) => Some(
                KeybindFieldsView {
                    capture_screen: member_text(fields, "captureScreen"@),
                    clear_screen: member_text(fields, "clearScreen"@),
                },
            ),
            None => None,
        },
    }
}

/// What a message asks for, by its type.
pub open spec fn request_of(document: DocumentView) -> RequestView {
    match document.kind {
        Some(kind) => if kind == "screen:status"@ {
            RequestView::Status
        } else if kind == "screen:capture"@ {
            RequestView::Capture
        } else if kind == "keybinds:update"@ {
            match document.keybinds {
                Some(fields) => RequestView::Keybinds {
                    capture: text_or(fields.capture_screen, "F8"@),
                    clear: text_or(fields.clear_screen, "F9"@),
                },
                None => RequestView::Nothing,
            }
        } else if kind == "force-update"@ || kind == "restart"@ {
            RequestView::Restart
        } else if kind == "error"@ && document.reason == Some("auth_failed"@) {
            RequestView::AuthFailed
        } else {
            RequestView::Nothing
        },
        None => RequestView::Nothing,
    }
}

/// What a text message asks for: nothing where it is no JSON document.
pub open spec fn request_in_text(document: Option<JsonView>) -> RequestView {
    match document {
        Some(value) => request_of(document_of(value)),
        None => RequestView::Nothing,
    }
}

/// Reads what the agent needs of a JSON value.
pub fn read_document(value: &serde_json::Value) -> (document: ServerDocument)
    ensures
        document@ == document_of(json_contents(*value)),
{
    let keybinds: Option<KeybindFields> = match get_member(value, "keybinds") {
        Some(fields) => Some(
            KeybindFields {
                capture_screen: get_text(fields, "captureScreen"),
                clear_screen: get_text(fields, "clearScreen"),
            },
        ),
        None => None,
    };
    ServerDocument { kind: get_text(value, "type"), reason: get_text(value, "reason"), keybinds }
}

fn text_or_default(text: Option<String>, otherwise: &str) -> (r: String)
    ensures
        r@ == text_or(text_of(text), otherwise@),
{
    match text {
        Some(t) => t,
        None => otherwise.to_owned(),
    }
}

/// Decides what a message asks for.
pub fn interpret(document: ServerDocument) -> (request: ServerRequest)
    ensures
        request@ == request_of(document@),
{
    let refused: bool = match &document.reason {
        Some(reason) => same_text(reason.as_str(), "auth_failed"),
        None => false,
    };
    match document.kind {
        Some(kind) => {
            let kind: &str = kind.as_str();
            if same_text(kind, "screen:status") {
                ServerRequest::Status
            } else if same_text(kind, "screen:capture") {
                ServerRequest::Capture
            } else if same_text(kind, "keybinds:update") {
                match document.keybinds {
                    Some(fields) => ServerRequest::Keybinds {
                        capture: text_or_default(fields.capture_screen, "F8"),
                        clear: text_or_default(fields.clear_screen, "F9"),
                    },
                    None => ServerRequest::Nothing,
                }
            } else if same_text(kind, "force-update") || same_text(kind, "restart") {
                ServerRequest::Restart
            } else if same_text(kind, "error") && refused {
                ServerRequest::AuthFailed
            } else {
                ServerRequest::Nothing
            }
        },
        None => ServerRequest::Nothing,
    }
}

/// Reads a text message and decides what it asks for.
pub fn read_request(text: &str) -> (request: ServerRequest)
    ensures
        request@ == request_in_text(json_document(text@)),
{
    match read_json(text) {
        Some(value) => interpret(read_document(&value)),
        None => ServerRequest::Nothing,
    }
}

// ---------------------------------------------------------------------------
// Laws
// ---------------------------------------------------------------------------

/// Whoever reads a greeting finds the token in it, and the role and the version of the
/// agent.
pub proof fn law_greeting_reads_back(
    text: Seq<char>,
    token: Seq<char>,
    status: ScreenStatusResponse,
)
    requires
        reads_back(text, hello_members(token, status)),
    ensures
        ({
            &&& json_document(text) matches Some(read)
            &&& member_text(read, "type"@) == Some("hello"@)
            &&& member_text(read, "token"@) == Some(token)
            &&& member_text(read, "role"@) == Some("agent"@)
            &&& member_text(read, "version"@) == Some("2.3.0"@)
        }),
{
    reveal_strlit("type");
    reveal_strlit("token");
    reveal_strlit("role");
    reveal_strlit("version");
    reveal_strlit("fortnite_running");
    reveal_strlit("width");
    reveal_strlit("height");
    assert("type"@.len() == 4);
    assert("token"@.len() == 5);
    assert("role"@.len() == 4);
    assert("version"@.len() == 7);
    assert("fortnite_running"@.len() == 16);
    assert("width"@.len() == 5);
    assert("height"@.len() == 6);
    assert("type"@[0] != "role"@[0]);
    assert("token"@[0] != "width"@[0]);
    let members = hello_members(token, status);
    law_object_holds_its_members(members, 0);
    law_object_holds_its_members(members, 1);
    law_object_holds_its_members(members, 2);
    law_object_holds_its_members(members, 3);
}

/// Whoever reads a message with a picture finds the picture in it.
pub proof fn law_picture_reads_back(
    text: Seq<char>,
    picture: Seq<char>,
    width: u32,
    height: u32,
    captured_at_ms: u64,
    sent_at_ms: u64,
)
    requires
        reads_back(text, capture_members(picture, width, height, captured_at_ms, sent_at_ms)),
    ensures
        ({
            &&& json_document(text) matches Some(read)
            &&& member_text(read, "type"@) == Some("screen:capture:result"@)
            &&& member_text(read, "pngBase64"@) == Some(picture)
        }),
{
    reveal_strlit("type");
    reveal_strlit("pngBase64");
    reveal_strlit("width");
    reveal_strlit("height");
    reveal_strlit("capturedAt");
    reveal_strlit("sentAt");
    assert("type"@.len() == 4);
    assert("pngBase64"@.len() == 9);
    assert("width"@.len() == 5);
    assert("height"@.len() == 6);
    assert("capturedAt"@.len() == 10);
    assert("sentAt"@.len() == 6);
    let members = capture_members(picture, width, height, captured_at_ms, sent_at_ms);
    law_object_holds_its_members(members, 0);
    law_object_holds_its_members(members, 1);
}

/// A report on the game asks for nothing: one that came back to the agent would be
/// ignored.
pub proof fn law_reports_are_no_requests(text: Seq<char>, status: ScreenStatusResponse)
    requires
        reads_back(text, status_members(status)),
    ensures
        request_in_text(json_document(text)) is Nothing,
{
    reveal_strlit("type");
    reveal_strlit("fortnite_running");
    reveal_strlit("width");
    reveal_strlit("height");
    reveal_strlit("screen:status:result");
    reveal_strlit("screen:status");
    reveal_strlit("screen:capture");
    reveal_strlit("keybinds:update");
    reveal_strlit("force-update");
    reveal_strlit("restart");
    reveal_strlit("error");
    assert("type"@.len() == 4);
    assert("fortnite_running"@.len() == 16);
    assert("width"@.len() == 5);
    assert("height"@.len() == 6);
    assert("screen:status:result"@.len() == 20);
    assert("screen:status"@.len() == 13);
    assert("screen:capture"@.len() == 14);
    assert("keybinds:update"@.len() == 15);
    assert("force-update"@.len() == 12);
    assert("restart"@.len() == 7);
    assert("error"@.len() == 5);
    law_object_holds_its_members(status_members(status), 0);
}

/// The keys of the messages of the agent differ.
proof fn lemma_keys_differ()
    ensures
        "type"@.len() == 4,
        "role"@.len() == 4,
        "type"@ != "role"@,
        "ts"@.len() == 2,
        "token"@.len() == 5,
        "width"@.len() == 5,
        "token"@ != "width"@,
        "error"@.len() == 5,
        "version"@.len() == 7,
        "fortnite_running"@.len() == 16,
        "height"@.len() == 6,
        "sentAt"@.len() == 6,
        "height"@ != "sentAt"@,
        "pngBase64"@.len() == 9,
        "capturedAt"@.len() == 10,
{
    reveal_strlit("type");
    reveal_strlit("role");
    reveal_strlit("ts");
    reveal_strlit("token");
    reveal_strlit("width");
    reveal_strlit("error");
    reveal_strlit("version");
    reveal_strlit("fortnite_running");
    reveal_strlit("height");
    reveal_strlit("sentAt");
    reveal_strlit("pngBase64");
    reveal_strlit("capturedAt");
    assert("type"@[0] != "role"@[0]);
    assert("token"@[0] != "width"@[0]);
    assert("height"@[0] != "sentAt"@[0]);
}

/// A report says of the game whether it runs, how wide it is and how high, and nothing
/// else.
pub proof fn law_reports_say_what_is_known(status: ScreenStatusResponse)
    ensures
        ({
            let said = status_members(status);
            &&& said.len() == 4
            &&& says_text(said, "type"@, "screen:status:result"@)
            &&& says(said, "fortnite_running"@, ScalarView::Flag(status.fortnite_running))
            &&& says(said, "width"@, ScalarView::Count(status.width as u64))
            &&& says(said, "height"@, ScalarView::Count(status.height as u64))
        }),
{
    lemma_keys_differ();
    let members = status_members(status);
    law_members_are_said(members, 0);
    law_members_are_said(members, 1);
    law_members_are_said(members, 2);
    law_members_are_said(members, 3);
}

/// A greeting says who speaks, with which token and version, and of the game whether it
/// runs, how wide it is and how high, and nothing else.
pub proof fn law_greetings_say_what_is_known(token: Seq<char>, status: ScreenStatusResponse)
    ensures
        ({
            let said = hello_members(token, status);
            &&& said.len() == 7
            &&& says_text(said, "type"@, "hello"@)
            &&& says_text(said, "token"@, token)
            &&& says_text(said, "role"@, "agent"@)
            &&& says_text(said, "version"@, "2.3.0"@)
            &&& says(said, "fortnite_running"@, ScalarView::Flag(status.fortnite_running))
            &&& says(said, "width"@, ScalarView::Count(status.width as u64))
            &&& says(said, "height"@, ScalarView::Count(status.height as u64))
        }),
{
    lemma_keys_differ();
    let members = hello_members(token, status);
    law_members_are_said(members, 0);
    law_members_are_said(members, 1);
    law_members_are_said(members, 2);
    law_members_are_said(members, 3);
    law_members_are_said(members, 4);
    law_members_are_said(members, 5);
    law_members_are_said(members, 6);
}

/// The message that hands a picture over says what the picture is, how large the window
/// was, and when it was taken and handed over, and nothing else.
pub proof fn law_pictures_come_with_their_sizes_and_times(
    picture: Seq<char>,
    width: u32,
    height: u32,
    captured_at_ms: u64,
    sent_at_ms: u64,
)
    ensures
        ({
            let said = capture_members(picture, width, height, captured_at_ms, sent_at_ms);
            &&& said.len() == 6
            &&& says_text(said, "type"@, "screen:capture:result"@)
            &&& says_text(said, "pngBase64"@, picture)
            &&& says(said, "width"@, ScalarView::Count(width as u64))
            &&& says(said, "height"@, ScalarView::Count(height as u64))
            &&& says(said, "capturedAt"@, ScalarView::Count(captured_at_ms))
            &&& says(said, "sentAt"@, ScalarView::Count(sent_at_ms))
        }),
{
    lemma_keys_differ();
    let members = capture_members(picture, width, height, captured_at_ms, sent_at_ms);
    law_members_are_said(members, 0);
    law_members_are_said(members, 1);
    law_members_are_said(members, 2);
    law_members_are_said(members, 3);
    law_members_are_said(members, 4);
    law_members_are_said(members, 5);
}

/// A ping says the time.
pub proof fn law_pings_say_the_time(ts_ms: int)
    requires
        0 <= ts_ms <= u64::MAX,
    ensures
        ({
            let said = ping_members(ts_ms);
            &&& said.len() == 2
            &&& says_text(said, "type"@, "ping"@)
            &&& exists|n: u64| n == ts_ms && #[trigger] says(said, "ts"@, ScalarView::Count(n))
        }),
{
    lemma_keys_differ();
    let members = ping_members(ts_ms);
    law_members_are_said(members, 0);
    law_members_are_said(members, 1);
    assert(says(members, "ts"@, ScalarView::Count(ts_ms as u64)));
}

/// The message of a failed capture says that the window could not be captured.
pub proof fn law_capture_errors_say_so()
    ensures
        capture_error_members().len() == 2,
        says_text(capture_error_members(), "type"@, "screen:capture:error"@),
        says_text(capture_error_members(), "error"@, "Failed to capture window"@),
{
    lemma_keys_differ();
    let members = capture_error_members();
    law_members_are_said(members, 0);
    law_members_are_said(members, 1);
}

/// A message asks for what its type says, whatever else it holds.
pub proof fn law_requests_go_by_their_type(value: JsonView)
    ensures
        ({
            let kind = member_text(value, "type"@);
            let request = request_of(document_of(value));
            &&& kind == Some("screen:status"@) <==> request is Status
            &&& kind == Some("screen:capture"@) <==> request is Capture
            &&& kind == Some("force-update"@) || kind == Some("restart"@) <==> request is Restart
            &&& kind == Some("error"@) && member_text(value, "reason"@) == Some("auth_failed"@)
                <==> request is AuthFailed
            &&& kind == Some("keybinds:update"@) && member(value, "keybinds"@) is Some
                <==> request is Keybinds
        }),
{
    reveal_strlit("screen:status");
    reveal_strlit("screen:capture");
    reveal_strlit("keybinds:update");
    reveal_strlit("force-update");
    reveal_strlit("restart");
    reveal_strlit("error");
    assert("screen:status"@.len() == 13);
    assert("screen:capture"@.len() == 14);
    assert("keybinds:update"@.len() == 15);
    assert("force-update"@.len() == 12);
    assert("restart"@.len() == 7);
    assert("error"@.len() == 5);
}

/// New keybinds are those that the message names; a missing one, or one that is no text, is
/// F8 for the capture and F9 for clearing.
pub proof fn law_keybinds_are_those_named(value: JsonView, fields: JsonView)
    requires
        member_text(value, "type"@) == Some("keybinds:update"@),
        member(value, "keybinds"@) == Some(fields),
    ensures
        request_of(document_of(value)) matches RequestView::Keybinds { capture, clear } && {
            &&& member_text(fields, "captureScreen"@) matches Some(text) ==> capture == text
            &&& member_text(fields, "captureScreen"@) is None ==> capture == "F8"@
            &&& member_text(fields, "clearScreen"@) matches Some(text) ==> clear == text
            &&& member_text(fields, "clearScreen"@) is None ==> clear == "F9"@
        },
{
    law_requests_go_by_their_type(value);
}

/// A text that is no JSON document, or whose value has no type, asks for nothing.
pub proof fn law_other_messages_ask_for_nothing(document: Option<JsonView>)
    requires
        document matches Some(value) ==> member_text(value, "type"@) is None,
    ensures
        request_in_text(document) is Nothing,
{
}

} // verus!
