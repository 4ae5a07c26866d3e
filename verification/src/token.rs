//! The login token that the page hands to the agent, and the config file that keeps it.

use vstd::prelude::*;
use vstd::string::*;
use crate::json::{
    JsonView, ObjectBuilder, ScalarView, get_text, json_contents, json_document, json_object_text,
    law_members_are_said, law_object_holds_its_members, member_text, read_json, reads_back,
    says_text,
};
use crate::paths::text_of;
use crate::text::{
    in_i128, law_decimals_read_back, read_signed_decimal, same_text, signed_decimal,
    signed_decimal_text, signed_number_in,
};

verus! {

/// How long a token may be used after it was received, in nanoseconds: ten minutes.
pub const TOKEN_LIFETIME_NS: i128 = 600_000_000_000;

/// A token, and the time up to which it may be used.
#[derive(Clone, Debug)]
pub struct TokenInfo {
    pub token: String,
    /// In nanoseconds since the Unix epoch.
    pub expires_at: i128,
}

/// The contents of a token.
pub struct TokenView {
    pub token: Seq<char>,
    pub expires_at: i128,
}

impl View for TokenInfo {
    type V = TokenView;

    open spec fn view(&self) -> TokenView {
        TokenView { token: self.token@, expires_at: self.expires_at }
    }
}

/// The contents of the place where the token is kept.
pub open spec fn token_in(slot: Option<TokenInfo>) -> Option<TokenView> {
    match slot {
        Some(info) => Some(info@),
        None => None,
    }
}

/// The place where the token is kept, after a token came in, or none did.
pub open spec fn token_after(
    slot: Option<TokenView>,
    received: Option<Seq<char>>,
    now_ns: i128,
) -> Option<TokenView> {
    match received {
        Some(token) => Some(
            TokenView { token, expires_at: (now_ns + TOKEN_LIFETIME_NS) as i128 },
        ),
        None => slot,
    }
}

/// What the page is answered.
pub open spec fn token_reply(received: Option<Seq<char>>) -> Seq<(Seq<char>, ScalarView)> {
    if received is Some {
        seq![("status"@, ScalarView::Text("ok"@))]
    } else {
        seq![("error"@, ScalarView::Text("missing token"@))]
    }
}

/// The token can be used at this time.
pub open spec fn usable_at(slot: Option<TokenView>, now_ns: i128) -> Option<Seq<char>> {
    match slot {
        Some(info) => if info.expires_at > now_ns {
            Some(info.token)
        } else {
            None
        },
        None => None,
    }
}

/// Keeps a token that came in, and writes the answer to the page.
pub fn store_token(slot: &mut Option<TokenInfo>, received: Option<String>, now_ns: i128) -> (reply:
    String)
    requires
        now_ns + TOKEN_LIFETIME_NS <= i128::MAX,
    ensures
        token_in(*final(slot)) == token_after(token_in(*old(slot)), text_of(received), now_ns),
        reply@ == json_object_text(token_reply(text_of(received))),
        reads_back(reply@, token_reply(text_of(received))),
{
    let mut reply: ObjectBuilder = ObjectBuilder::new();
    match received {
        Some(token) => {
            *slot = Some(TokenInfo { token, expires_at: now_ns + TOKEN_LIFETIME_NS });
            reply.text("status", "ok");
            assert(reply@ =~= token_reply(text_of(received)));
        },
        None => {
            reply.text("error", "missing token");
            assert(reply@ =~= token_reply(text_of(received)));
        },
    }
    reply.write()
}

/// Takes the body of a request that hands over a token: an object with a string named
/// `token`. Any other body leaves the token that is kept as it is.
pub fn receive_token(
    slot: &mut Option<TokenInfo>,
    body: &serde_json::Value,
    now_ns: i128,
) -> (reply: String)
    requires
        now_ns + TOKEN_LIFETIME_NS <= i128::MAX,
    ensures
        token_in(*final(slot)) == token_after(
            token_in(*old(slot)),
            member_text(json_contents(*body), "token"@),
            now_ns,
        ),
        reply@ == json_object_text(
            token_reply(member_text(json_contents(*body), "token"@)),
        ),
        reads_back(reply@, token_reply(member_text(json_contents(*body), "token"@))),
{
    let received: Option<String> = get_text(body, "token");
    assert(text_of(received) == member_text(json_contents(*body), "token"@));
    store_token(slot, received, now_ns)
}

/// The token, where it can be used now.
pub fn usable_token(slot: &Option<TokenInfo>, now_ns: i128) -> (token: Option<String>)
    ensures
        text_of(token) == usable_at(token_in(*slot), now_ns),
{
    match slot {
        Some(info) => {
            if info.expires_at > now_ns {
                Some(info.token.clone())
            } else {
                None
            }
        },
        None => None,
    }
}

// ---------------------------------------------------------------------------
// The config file
// ---------------------------------------------------------------------------

/// The members of the config file: the token and the time up to which it may be used, or
/// nothing without a token.
pub open spec fn config_members(slot: Option<TokenView>) -> Seq<(Seq<char>, ScalarView)> {
    match slot {
        Some(info) => seq![
            ("token"@, ScalarView::Text(info.token)),
            ("expiresAt"@, ScalarView::Text(signed_decimal(info.expires_at as int))),
        ],
        None => Seq::empty(),
    }
}

/// The token that a config file holds; none where it is damaged.
pub open spec fn token_in_config(document: Option<JsonView>) -> Option<TokenView> {
    match document {
        Some(value) => match (member_text(value, "token"@), member_text(value, "expiresAt"@)) {
            (Some(token), Some(expiry)) => match in_i128(signed_number_in(expiry)) {
                Some(expires_at) => Some(TokenView { token, expires_at }),
                None => None,
            },
            _ => None,
        },
        None => None,
    }
}

/// Writes the config file, so that the user stays logged in when the agent is started
/// again.
pub fn write_config(slot: &Option<TokenInfo>) -> (config: String)
    ensures
        config@ == json_object_text(config_members(token_in(*slot))),
        reads_back(config@, config_members(token_in(*slot))),
{
    let mut object: ObjectBuilder = ObjectBuilder::new();
    if let Some(info) = slot {
        object.text("token", info.token.as_str());
        object.text("expiresAt", signed_decimal_text(info.expires_at).as_str());
    }
    assert(object@ =~= config_members(token_in(*slot)));
    object.write()
}

/// The config file, where it is no longer the one that was written last.
pub fn config_to_write(written: &str, slot: &Option<TokenInfo>) -> (config: Option<String>)
    ensures
        config is Some == (written@ != json_object_text(config_members(token_in(*slot)))),
        config matches Some(text) ==> {
            &&& text@ == json_object_text(config_members(token_in(*slot)))
            &&& reads_back(text@, config_members(token_in(*slot)))
        },
{
    let config: String = write_config(slot);
    if same_text(config.as_str(), written) {
        None
    } else {
        Some(config)
    }
}

/// Reads the token from the config file.
pub fn read_config(config: &str) -> (slot: Option<TokenInfo>)
    ensures
        token_in(slot) == token_in_config(json_document(config@)),
{
    let value: serde_json::Value = match read_json(config) {
        Some(value) => value,
        None => return None,
    };
    match (get_text(&value, "token"), get_text(&value, "expiresAt")) {
        (Some(token), Some(expiry)) => match read_signed_decimal(expiry.as_str()) {
            Some(expires_at) => Some(TokenInfo { token, expires_at }),
            None => None,
        },
        _ => None,
    }
}

// ---------------------------------------------------------------------------
// Laws
// ---------------------------------------------------------------------------

/// What is kept outlives a restart: the config file gives back the token and the time
/// up to which it may be used, unchanged, or no token where none was kept.
pub proof fn law_token_survives_restart(config: Seq<char>, slot: Option<TokenView>)
    requires
        reads_back(config, config_members(slot)),
    ensures
        token_in_config(json_document(config)) == slot,
{
    if let Some(info) = slot {
        reveal_strlit("token");
        reveal_strlit("expiresAt");
        assert("token"@.len() == 5);
        assert("expiresAt"@.len() == 9);
        law_object_holds_its_members(config_members(slot), 0);
        law_object_holds_its_members(config_members(slot), 1);
        law_decimals_read_back(info.expires_at);
    }
}

/// A token that came in is still there after a restart, and can be used as long as
/// without one.
pub proof fn law_received_token_survives_restart(
    config: Seq<char>,
    slot: Option<TokenView>,
    received: Seq<char>,
    now_ns: i128,
    later_ns: i128,
)
    requires
        now_ns + TOKEN_LIFETIME_NS <= i128::MAX,
        reads_back(config, config_members(token_after(slot, Some(received), now_ns))),
    ensures
        ({
            let restored = token_in_config(json_document(config));
            &&& restored matches Some(info) && info.token == received
            &&& usable_at(restored, later_ns) == (if later_ns < now_ns + 600_000_000_000 {
                Some(received)
            } else {
                None
            })
        }),
{
    law_token_survives_restart(config, token_after(slot, Some(received), now_ns));
}

/// A token that came in can be used for exactly the ten minutes that follow.
pub proof fn law_token_lasts_ten_minutes(
    slot: Option<TokenView>,
    received: Seq<char>,
    now_ns: i128,
    later_ns: i128,
)
    requires
        now_ns + TOKEN_LIFETIME_NS <= i128::MAX,
    ensures
        usable_at(token_after(slot, Some(received), now_ns), later_ns) == (if later_ns < now_ns
            + 600_000_000_000 {
            Some(received)
        } else {
            None
        }),
{
}

/// A request without a token changes nothing.
pub proof fn law_missing_token_changes_nothing(slot: Option<TokenView>, now_ns: i128)
    ensures
        token_after(slot, None, now_ns) == slot,
{
}

/// A token that is kept can be used exactly before it expires.
pub proof fn law_tokens_are_usable_until_they_expire(slot: Option<TokenView>, now_ns: i128)
    ensures
        slot is None ==> usable_at(slot, now_ns) is None,
        slot matches Some(info) ==> {
            &&& now_ns < info.expires_at ==> usable_at(slot, now_ns) == Some(info.token)
            &&& now_ns >= info.expires_at ==> usable_at(slot, now_ns) is None
        },
{
}

/// The page is told that its token was taken, or that there was none.
pub proof fn law_page_is_told_of_its_token(received: Option<Seq<char>>)
    ensures
        token_reply(received).len() == 1,
        received is Some ==> says_text(token_reply(received), "status"@, "ok"@),
        received is None ==> says_text(token_reply(received), "error"@, "missing token"@),
{
    law_members_are_said(token_reply(received), 0);
}

/// The token that came in last is the one that is kept, whatever was kept before.
pub proof fn law_last_token_counts(slot: Option<TokenView>, received: Seq<char>, now_ns: i128)
    requires
        now_ns + 600_000_000_000 <= i128::MAX,
    ensures
        token_after(slot, Some(received), now_ns) matches Some(info) && info.token == received
            && info.expires_at - now_ns == 600_000_000_000,
{
}

} // verus!
