//! What the agent does when it is started.

use vstd::prelude::*;
use vstd::string::*;
use crate::text::{same_text, views};

verus! {

// ---------------------------------------------------------------------------
// Arguments
// ---------------------------------------------------------------------------

/// What the arguments ask for: a removal, quiet or not, or nothing.
pub open spec fn removal_asked_for(args: Seq<Seq<char>>) -> Option<bool> {
    if args.contains("--uninstall"@) {
        Some(args.contains("--quiet"@))
    } else {
        None
    }
}

fn contains_arg(args: &Vec<String>, wanted: &str) -> (r: bool)
    ensures
        r == views(args@).contains(wanted@),
{
    let mut i: usize = 0;
    while i < args.len()
        invariant
            i <= args.len(),
            forall|j: int| 0 <= j < i ==> (#[trigger] views(args@)[j]) != wanted@,
        decreases args.len() - i,
    {
        if same_text(args[i].as_str(), wanted) {
            assert(views(args@)[i as int] == wanted@);
            return true;
        }
        i += 1;
    }
    false
}

/// Reads from the arguments whether the user wants the agent to run on startup. Without
/// the argument the agent never does.
pub fn run_on_startup_enabled(args: &Vec<String>) -> (enabled: bool)
    ensures
        enabled == views(args@).contains("--run-on-startup"@),
{
    contains_arg(args, "--run-on-startup")
}

/// Reads from the arguments whether the agent is to be removed, and whether quietly.
pub fn uninstall_requested(args: &Vec<String>) -> (quiet: Option<bool>)
    ensures
        quiet == removal_asked_for(views(args@)),
{
    if contains_arg(args, "--uninstall") {
        Some(contains_arg(args, "--quiet"))
    } else {
        None
    }
}

// ---------------------------------------------------------------------------
// Setting up
// ---------------------------------------------------------------------------

/// A part of setting the agent up.
#[derive(Clone, Copy, Debug, PartialEq, Eq, Structural)]
pub enum SetupStep {
    /// Make the desktop shortcut; where that fails, the agent does not start.
    DesktopShortcut,
    /// Make the startup shortcut; where that fails, the agent does not start.
    StartupShortcut,
    /// Write the entry among the installed programs, if that can be done.
    Register,
    /// Write the file that says that the agent was set up, if that can be done.
    WriteMarker,
}

/// The steps of setting the agent up. On every run its entry among the installed
/// programs is brought up to date; the rest is done on the first run only, and the
/// startup shortcut is made only where the user has enabled it.
pub open spec fn setup_plan(was_set_up: bool, run_on_startup: bool) -> Seq<SetupStep> {
    if was_set_up {
        seq![SetupStep::Register]
    } else if run_on_startup {
        seq![
            SetupStep::DesktopShortcut,
            SetupStep::StartupShortcut,
            SetupStep::Register,
            SetupStep::WriteMarker,
        ]
    } else {
        seq![SetupStep::DesktopShortcut, SetupStep::Register, SetupStep::WriteMarker]
    }
}

/// The steps of setting the agent up.
pub fn setup_steps(was_set_up: bool, run_on_startup: bool) -> (steps: Vec<SetupStep>)
    ensures
        steps@ == setup_plan(was_set_up, run_on_startup),
        steps@.contains(SetupStep::StartupShortcut) == (!was_set_up && run_on_startup),
{
    proof {
        law_startup_entry_is_optional(was_set_up, run_on_startup);
    }
    let mut steps: Vec<SetupStep> = Vec::new();
    if !was_set_up {
        steps.push(SetupStep::DesktopShortcut);
        if run_on_startup {
            steps.push(SetupStep::StartupShortcut);
        }
    }
    steps.push(SetupStep::Register);
    if !was_set_up {
        steps.push(SetupStep::WriteMarker);
    }
    assert(steps@ =~= setup_plan(was_set_up, run_on_startup));
    steps
}

/// What the file that says that the agent was set up holds.
pub fn marker_contents() -> (text: String)
    ensures
        text@ == "1"@,
{
    "1".to_owned()
}

// ---------------------------------------------------------------------------
// Starting
// ---------------------------------------------------------------------------

/// A part of starting the agent.
#[derive(Clone, Copy, Debug, PartialEq, Eq, Structural)]
pub enum LaunchStep {
    /// Set the agent up.
    SetUp,
    /// Look for an update, and wait for the result.
    CheckForUpdate,
    /// From now on, look for an update once a day.
    RepeatUpdateChecks,
    /// Show the agent on Discord.
    ShowPresence,
    /// Start the connection to the server.
    StartLink,
    /// Start the server for the page.
    StartLocalServer,
    /// Bind the hotkeys as they are at first.
    BindHotkeys,
    /// Put the icon into the tray.
    BuildTray,
    /// Start to watch the hotkeys.
    PollHotkeys,
    /// Serve the user until the end.
    RunEventLoop,
}

/// The steps that only a build outside the store takes: the store sets programs up and
/// updates them itself.
pub open spec fn standalone_steps() -> Seq<LaunchStep> {
    seq![LaunchStep::SetUp, LaunchStep::CheckForUpdate, LaunchStep::RepeatUpdateChecks]
}

/// The steps that every build takes.
pub open spec fn common_steps() -> Seq<LaunchStep> {
    seq![
        LaunchStep::ShowPresence,
        LaunchStep::StartLink,
        LaunchStep::StartLocalServer,
        LaunchStep::BindHotkeys,
        LaunchStep::BuildTray,
        LaunchStep::PollHotkeys,
        LaunchStep::RunEventLoop,
    ]
}

/// The steps of starting the agent.
pub open spec fn launch_plan(is_single: bool, store_build: bool) -> Seq<LaunchStep> {
    if !is_single {
        Seq::empty()
    } else if store_build {
        common_steps()
    } else {
        standalone_steps() + common_steps()
    }
}

/// The steps of starting the agent; none where it runs already.
pub fn launch_steps(is_single: bool, store_build: bool) -> (steps: Vec<LaunchStep>)
    ensures
        steps@ == launch_plan(is_single, store_build),
{
    let mut steps: Vec<LaunchStep> = Vec::new();
    if is_single {
        if !store_build {
            steps.push(LaunchStep::SetUp);
            steps.push(LaunchStep::CheckForUpdate);
            steps.push(LaunchStep::RepeatUpdateChecks);
        }
        steps.push(LaunchStep::ShowPresence);
        steps.push(LaunchStep::StartLink);
        steps.push(LaunchStep::StartLocalServer);
        steps.push(LaunchStep::BindHotkeys);
        steps.push(LaunchStep::BuildTray);
        steps.push(LaunchStep::PollHotkeys);
        steps.push(LaunchStep::RunEventLoop);
    }
    assert(steps@ =~= launch_plan(is_single, store_build));
    steps
}

// ---------------------------------------------------------------------------
// Laws
// ---------------------------------------------------------------------------

/// A removal is quiet only where it was asked for: `--quiet` alone asks for nothing.
pub proof fn law_quiet_alone_asks_for_nothing(args: Seq<Seq<char>>)
    requires
        !args.contains("--uninstall"@),
    ensures
        removal_asked_for(args) is None,
{
}

/// The order of the arguments does not matter.
pub proof fn law_order_of_arguments(left: Seq<Seq<char>>, right: Seq<Seq<char>>)
    ensures
        removal_asked_for(left + right) == removal_asked_for(right + left),
{
    assert forall|arg: Seq<char>| (left + right).contains(arg) == (right + left).contains(arg) by {
        lemma_contains_in_sum(left, right, arg);
        lemma_contains_in_sum(right, left, arg);
    }
    assert((left + right).contains("--uninstall"@) == (right + left).contains("--uninstall"@));
    assert((left + right).contains("--quiet"@) == (right + left).contains("--quiet"@));
}

proof fn lemma_contains_in_sum(left: Seq<Seq<char>>, right: Seq<Seq<char>>, arg: Seq<char>)
    ensures
        (left + right).contains(arg) == (left.contains(arg) || right.contains(arg)),
{
    if left.contains(arg) {
        let i = left.index_of(arg);
        assert((left + right)[i] == arg);
    }
    if right.contains(arg) {
        let i = right.index_of(arg);
        assert((left + right)[left.len() + i] == arg);
    }
}

/// The agent is made to run on startup only where the user has enabled it.
pub proof fn law_startup_entry_is_optional(was_set_up: bool, run_on_startup: bool)
    ensures
        setup_plan(was_set_up, run_on_startup).contains(SetupStep::StartupShortcut) == (!was_set_up
            && run_on_startup),
{
    let plan = setup_plan(was_set_up, run_on_startup);
    if !was_set_up && run_on_startup {
        assert(plan[1] == SetupStep::StartupShortcut);
    }
}

/// Every launch outside the store looks for an update, once, before any part of the
/// agent is started, and goes on doing so; a store build never does.
pub proof fn law_every_launch_looks_for_updates(store_build: bool, i: int)
    requires
        0 <= i < launch_plan(true, store_build).len(),
    ensures
        ({
            let plan = launch_plan(true, store_build);
            &&& plan[i] is CheckForUpdate <==> !store_build && i == 1
            &&& plan[i] is RepeatUpdateChecks <==> !store_build && i == 2
            &&& plan[i] is SetUp <==> !store_build && i == 0
        }),
{
}

/// The agent runs once: a second one starts nothing.
pub proof fn law_runs_once(store_build: bool)
    ensures
        launch_plan(false, store_build).len() == 0,
        launch_plan(true, store_build).last() is RunEventLoop,
{
}

/// The first start makes the desktop shortcut, and notes at its very end that it was there;
/// later starts only register the program, which every start does once.
pub proof fn law_first_start_is_noted_at_its_end(was_set_up: bool, run_on_startup: bool, i: int)
    requires
        0 <= i < setup_plan(was_set_up, run_on_startup).len(),
    ensures
        ({
            let plan = setup_plan(was_set_up, run_on_startup);
            &&& plan[i] is DesktopShortcut <==> !was_set_up && i == 0
            &&& plan[i] is WriteMarker <==> !was_set_up && i == plan.len() - 1
            &&& plan[i] is Register <==> i == plan.len() - (if was_set_up { 1int } else { 2 })
        }),
{
}

/// Every part of the agent is started once, in a launch of either kind.
pub proof fn law_every_part_is_started(store_build: bool, i: int, j: int)
    requires
        0 <= i < j < launch_plan(true, store_build).len(),
    ensures
        ({
            let plan = launch_plan(true, store_build);
            &&& plan[i] != plan[j]
            &&& plan.len() == (if store_build { 7int } else { 10 })
        }),
{
}

} // verus!
