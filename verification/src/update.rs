//! Keeping the agent up to date.

use vstd::prelude::*;
use vstd::string::*;
use crate::registry::agent_version;

verus! {

/// How long the agent waits from one look for an update to the next, in seconds: a day.
pub const UPDATE_INTERVAL_SECS: u64 = 86400;

/// Where updates come from, and how they are installed.
#[derive(Debug)]
pub struct UpdateSource {
    pub repo_owner: String,
    pub repo_name: String,
    pub bin_name: String,
    /// The name of the platform, as far as files go by it.
    pub target: String,
    pub no_confirm: bool,
    pub show_download_progress: bool,
    pub current_version: String,
}

/// The source of the agent's updates: its public repository. The user is not asked.
pub open spec fn is_own_source(source: UpdateSource) -> bool {
    &&& source.repo_owner@ == "313Wentzy"@
    &&& source.repo_name@ == "drop-agent"@
    &&& source.bin_name@ == "Dropmazter-agent"@
    &&& source.target@ == Seq::<char>::empty()
    &&& source.no_confirm
    &&& source.show_download_progress
    &&& source.current_version@ == "2.3.0"@
}

/// How far a look for an update has come.
#[derive(Clone, Copy, Debug, PartialEq, Eq, Structural)]
pub enum UpdateEvent {
    Started,
    /// The updater was put together, or could not be.
    Configured { ready: bool },
    /// A newer version was installed.
    Updated,
    /// There was none.
    UpToDate,
    /// The look or the installation failed.
    Failed,
    /// The new version was started, or could not be.
    Relaunched { started: bool },
}

/// The next step of a look for an update.
#[derive(Debug)]
pub enum UpdateAction {
    /// Put an updater together for this source.
    Configure(UpdateSource),
    /// Have it look for a newer version, and install it.
    Update,
    /// Start the program anew.
    Relaunch,
    /// End this program.
    Exit,
    /// Go on as before.
    GoOn,
}

/// Decides the next step of a look for an update.
pub fn check_for_update(event: UpdateEvent) -> (action: UpdateAction)
    ensures
        match event {
            UpdateEvent::Started => action matches UpdateAction::Configure(source)
                && is_own_source(source),
            UpdateEvent::Configured { ready } => if ready {
                action is Update
            } else {
                action is GoOn
            },
            UpdateEvent::Updated => action is Relaunch,
            UpdateEvent::UpToDate => action is GoOn,
            UpdateEvent::Failed => action is GoOn,
            UpdateEvent::Relaunched { .. } => action is Exit,
        },
{
    match event {
        UpdateEvent::Started => {
            proof {
                reveal_strlit("");
                assert(""@ =~= Seq::<char>::empty());
            }
            UpdateAction::Configure(
                UpdateSource {
                    repo_owner: "313Wentzy".to_owned(),
                    repo_name: "drop-agent".to_owned(),
                    bin_name: "Dropmazter-agent".to_owned(),
                    target: "".to_owned(),
                    no_confirm: true,
                    show_download_progress: true,
                    current_version: agent_version(),
                },
            )
        },
        UpdateEvent::Configured { ready } => {
            if ready {
                UpdateAction::Update
            } else {
                UpdateAction::GoOn
            }
        },
        UpdateEvent::Updated => UpdateAction::Relaunch,
        UpdateEvent::UpToDate => UpdateAction::GoOn,
        UpdateEvent::Failed => UpdateAction::GoOn,
        UpdateEvent::Relaunched { .. } => UpdateAction::Exit,
    }
}

// ---------------------------------------------------------------------------
// Once a day
// ---------------------------------------------------------------------------

/// What has happened in the loop that looks for updates.
#[derive(Clone, Copy, Debug, PartialEq, Eq, Structural)]
pub enum UpdateLoopEvent {
    Started,
    Waited,
    Checked,
}

/// What the loop does next.
#[derive(Clone, Copy, Debug, PartialEq, Eq, Structural)]
pub enum UpdateLoopAction {
    Wait { seconds: u64 },
    Check,
}

/// What the loop does next: it waits a day, looks for an update, and so on.
pub open spec fn update_loop_next(event: UpdateLoopEvent) -> UpdateLoopAction {
    match event {
        UpdateLoopEvent::Started => UpdateLoopAction::Wait { seconds: 86400 },
        UpdateLoopEvent::Waited => UpdateLoopAction::Check,
        UpdateLoopEvent::Checked => UpdateLoopAction::Wait { seconds: 86400 },
    }
}

/// Decides what the loop that looks for updates does next.
pub fn spawn_update_loop(event: UpdateLoopEvent) -> (action: UpdateLoopAction)
    ensures
        action == update_loop_next(event),
{
    match event {
        UpdateLoopEvent::Started => UpdateLoopAction::Wait { seconds: UPDATE_INTERVAL_SECS },
        UpdateLoopEvent::Waited => UpdateLoopAction::Check,
        UpdateLoopEvent::Checked => UpdateLoopAction::Wait { seconds: UPDATE_INTERVAL_SECS },
    }
}

// ---------------------------------------------------------------------------
// Laws
// ---------------------------------------------------------------------------

/// The loop looks for updates once a day: it never looks before a day has passed since its
/// start or since its last look.
pub proof fn law_updates_are_looked_for_daily(event: UpdateLoopEvent)
    ensures
        update_loop_next(event) is Check <==> event is Waited,
        update_loop_next(event) matches UpdateLoopAction::Wait { seconds } ==> seconds == 24 * 60
            * 60,
{
}

} // verus!
