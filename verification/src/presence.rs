//! Showing the agent on Discord.

use vstd::prelude::*;
use vstd::string::*;

verus! {

/// How long the agent waits before it shows itself again, in seconds.
pub const REFRESH_WAIT_SECS: u64 = 15;

/// How long the agent waits before it connects to Discord again, in seconds.
pub const RETRY_WAIT_SECS: u64 = 30;

/// The name under which Discord knows the agent.
pub fn discord_client_id() -> (id: String)
    ensures
        id@ == "1244587407320551447"@,
{
    "1244587407320551447".to_owned()
}

// ---------------------------------------------------------------------------
// What is shown
// ---------------------------------------------------------------------------

/// A button that opens a page.
#[derive(Debug)]
pub struct PresenceButton {
    pub label: String,
    pub url: String,
}

/// What Discord shows of the agent.
#[derive(Debug)]
pub struct PresenceCard {
    pub details: String,
    pub state: String,
    pub large_image: String,
    pub large_text: String,
    /// Since when the agent is shown, in seconds since the Unix epoch.
    pub start_secs: u64,
    pub buttons: Vec<PresenceButton>,
}

/// The card that shows the agent since a time.
pub open spec fn is_card_since(card: PresenceCard, start_secs: u64) -> bool {
    &&& card.details@ == "Never get outdropped again!"@
    &&& card.state@ == "dropmazter.com"@
    &&& card.large_image@ == "logo"@
    &&& card.large_text@ == "Dropmazter - Drop Smarter. Land Faster."@
    &&& card.start_secs == start_secs
    &&& card.buttons@.len() == 2
    &&& card.buttons@[0].label@ == "Try Drop Calculator"@
    &&& card.buttons@[0].url@ == "https://dropmazter.com/"@
    &&& card.buttons@[1].label@ == "Shop Dropmaps"@
    &&& card.buttons@[1].url@ == "https://dropmazter.com/map"@
}

fn card_since(start_secs: u64) -> (card: PresenceCard)
    ensures
        is_card_since(card, start_secs),
{
    PresenceCard {
        details: "Never get outdropped again!".to_owned(),
        state: "dropmazter.com".to_owned(),
        large_image: "logo".to_owned(),
        large_text: "Dropmazter - Drop Smarter. Land Faster.".to_owned(),
        start_secs,
        buttons: vec![
            PresenceButton {
                label: "Try Drop Calculator".to_owned(),
                url: "https://dropmazter.com/".to_owned(),
            },
            PresenceButton {
                label: "Shop Dropmaps".to_owned(),
                url: "https://dropmazter.com/map".to_owned(),
            },
        ],
    }
}

// ---------------------------------------------------------------------------
// The loop
// ---------------------------------------------------------------------------

/// Whether there is a connection to Discord, and since when.
#[derive(Clone, Copy, Debug, PartialEq, Eq, Structural)]
pub enum PresencePhase {
    Offline,
    Online { since_secs: u64 },
}

/// Something that has happened.
#[derive(Clone, Copy, Debug, PartialEq, Eq, Structural)]
pub enum PresenceEvent {
    /// The agent has started, or the last wait is over.
    Ready,
    /// There is a connection; the time, in seconds since the Unix epoch.
    Connected { now_secs: u64 },
    /// There is none.
    NotAvailable,
    /// The card is shown.
    Shown,
    /// The card could not be shown.
    Lost,
}

/// What is done next.
#[derive(Debug)]
pub enum PresenceAction {
    Connect,
    /// Show the card over the connection.
    Show(PresenceCard),
    /// Give up the connection, if there is one, and wait so many seconds.
    Disconnect { seconds: u64 },
    /// Wait so many seconds, with the connection kept.
    Wait { seconds: u64 },
}

/// The connection after an event. Its time is that at which it came about.
pub open spec fn presence_after(phase: PresencePhase, event: PresenceEvent) -> PresencePhase {
    match event {
        PresenceEvent::Ready => phase,
        PresenceEvent::Connected { now_secs } => PresencePhase::Online { since_secs: now_secs },
        PresenceEvent::NotAvailable => PresencePhase::Offline,
        PresenceEvent::Shown => phase,
        PresenceEvent::Lost => PresencePhase::Offline,
    }
}

/// What is done after an event.
pub open spec fn is_presence_action(
    phase: PresencePhase,
    event: PresenceEvent,
    action: PresenceAction,
) -> bool {
    match event {
        PresenceEvent::Ready => match phase {
            PresencePhase::Offline => action is Connect,
            PresencePhase::Online { since_secs } => action matches PresenceAction::Show(card)
                && is_card_since(card, since_secs),
        },
        PresenceEvent::Connected { now_secs } => action matches PresenceAction::Show(card)
            && is_card_since(card, now_secs),
        PresenceEvent::NotAvailable => action == PresenceAction::Disconnect { seconds: 30 },
        PresenceEvent::Shown => action == PresenceAction::Wait { seconds: 15 },
        PresenceEvent::Lost => action == PresenceAction::Disconnect { seconds: 30 },
    }
}

/// Takes an event, and says what is done next to show the agent on Discord.
pub fn run_discord_presence(phase: &mut PresencePhase, event: PresenceEvent) -> (action:
    PresenceAction)
    ensures
        *final(phase) == presence_after(*old(phase), event),
        is_presence_action(*old(phase), event, action),
{
    match event {
        PresenceEvent::Ready => match *phase {
            PresencePhase::Offline => PresenceAction::Connect,
            PresencePhase::Online { since_secs } => PresenceAction::Show(card_since(since_secs)),
        },
        PresenceEvent::Connected { now_secs } => {
            *phase = PresencePhase::Online { since_secs: now_secs };
            PresenceAction::Show(card_since(now_secs))
        },
        PresenceEvent::NotAvailable => {
            *phase = PresencePhase::Offline;
            PresenceAction::Disconnect { seconds: RETRY_WAIT_SECS }
        },
        PresenceEvent::Shown => PresenceAction::Wait { seconds: REFRESH_WAIT_SECS },
        PresenceEvent::Lost => {
            *phase = PresencePhase::Offline;
            PresenceAction::Disconnect { seconds: RETRY_WAIT_SECS }
        },
    }
}

// ---------------------------------------------------------------------------
// Laws
// ---------------------------------------------------------------------------

/// The connection after a list of events.
pub open spec fn presence_after_all(
    phase: PresencePhase,
    events: Seq<PresenceEvent>,
) -> PresencePhase
    decreases events.len(),
{
    if events.len() == 0 {
        phase
    } else {
        presence_after(presence_after_all(phase, events.drop_last()), events.last())
    }
}

/// While a connection lasts, every card tells the time at which it came about: Discord
/// shows the length of the whole session.
pub proof fn law_session_starts_once(
    now_secs: u64,
    events: Seq<PresenceEvent>,
    before: PresencePhase,
    action: PresenceAction,
)
    requires
        forall|i: int|
            0 <= i < events.len() ==> (#[trigger] events[i]) is Ready || events[i] is Shown,
        is_presence_action(
            presence_after_all(
                presence_after(before, PresenceEvent::Connected { now_secs }),
                events,
            ),
            PresenceEvent::Ready,
            action,
        ),
    ensures
        action matches PresenceAction::Show(card) && card.start_secs == now_secs,
{
    lemma_connection_lasts(presence_after(before, PresenceEvent::Connected { now_secs }), events);
}

proof fn lemma_connection_lasts(phase: PresencePhase, events: Seq<PresenceEvent>)
    requires
        forall|i: int|
            0 <= i < events.len() ==> (#[trigger] events[i]) is Ready || events[i] is Shown,
    ensures
        presence_after_all(phase, events) == phase,
    decreases events.len(),
{
    if events.len() > 0 {
        lemma_connection_lasts(phase, events.drop_last());
        assert(events[events.len() - 1] is Ready || events[events.len() - 1] is Shown);
    }
}

/// A connection that was lost is made anew before anything is shown again.
pub proof fn law_lost_connections_are_made_anew(phase: PresencePhase, action: PresenceAction)
    requires
        is_presence_action(
            presence_after(phase, PresenceEvent::Lost),
            PresenceEvent::Ready,
            action,
        ),
    ensures
        action is Connect,
{
}

/// What follows each event, and after how long: a connection is tried at once and after
/// thirty seconds, and the card is shown at once and after fifteen seconds.
pub proof fn law_presence_keeps_its_times(
    phase: PresencePhase,
    event: PresenceEvent,
    action: PresenceAction,
)
    requires
        is_presence_action(phase, event, action),
    ensures
        event is NotAvailable || event is Lost ==> {
            &&& action == PresenceAction::Disconnect { seconds: 30 }
            &&& presence_after(phase, event) is Offline
        },
        event is Shown ==> {
            &&& action == PresenceAction::Wait { seconds: 15 }
            &&& presence_after(phase, event) == phase
        },
        event is Ready ==> {
            &&& action is Connect <==> phase is Offline
            &&& action is Show <==> phase is Online
            &&& presence_after(phase, event) == phase
        },
        event matches PresenceEvent::Connected { now_secs } ==> {
            &&& action matches PresenceAction::Show(card) && card.start_secs == now_secs
            &&& presence_after(phase, event) == (PresencePhase::Online { since_secs: now_secs })
        },
{
}

} // verus!
