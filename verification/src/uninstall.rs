//! Removing the agent from the machine.

use vstd::prelude::*;
use vstd::string::*;
use crate::paths::{
    PathPlan, PathView, agent_file, joined, path_of_one, path_of_two, text_of, windows_path,
};
use crate::registry::uninstall_key;
use crate::shortcut::{desktop_shortcut, startup_shortcut};
use crate::text::{same_text, trim, trimmed, views};

verus! {

/// The folders that Windows tells of in its environment, each where it is set.
#[derive(Debug)]
pub struct Places {
    pub userprofile: Option<String>,
    pub appdata: Option<String>,
    pub local_app_data: Option<String>,
}

/// One step of the removal. Every step is taken, whether or not those before it
/// succeeded.
#[derive(Debug)]
pub enum UninstallStep {
    /// Remove a file, where it exists.
    RemoveFile(PathPlan),
    /// Remove a registry key under the current user, and all below it.
    RemoveKey(String),
    /// Remove a folder with all that is in it, where it exists.
    RemoveFolder(PathPlan),
    /// Run a PowerShell script that shows a message.
    Show(String),
    /// Have the program itself removed after it has ended.
    RemoveSelf,
}

/// The contents of a step.
pub enum StepView {
    RemoveFile(PathView),
    RemoveKey(Seq<char>),
    RemoveFolder(PathView),
    Show(Seq<char>),
    RemoveSelf,
}

impl View for UninstallStep {
    type V = StepView;

    open spec fn view(&self) -> StepView {
        match self {
            UninstallStep::RemoveFile(path) => StepView::RemoveFile(path@),
            UninstallStep::RemoveKey(key) => StepView::RemoveKey(key@),
            UninstallStep::RemoveFolder(path) => StepView::RemoveFolder(path@),
            UninstallStep::Show(script) => StepView::Show(script@),
            UninstallStep::RemoveSelf => StepView::RemoveSelf,
        }
    }
}

/// The contents of a list of steps.
pub open spec fn step_views(steps: Seq<UninstallStep>) -> Seq<StepView> {
    steps.map_values(|s: UninstallStep| s@)
}

// ---------------------------------------------------------------------------
// What is removed
// ---------------------------------------------------------------------------

/// A list of one step, where there is a place for it.
pub open spec fn step_at(place: Option<Seq<char>>, step: spec_fn(Seq<char>) -> StepView) -> Seq<
    StepView,
> {
    match place {
        Some(dir) => seq![step(dir)],
        None => Seq::empty(),
    }
}

/// The startup shortcut, as the removal finds it.
pub open spec fn startup_shortcut_to_remove(appdata: Seq<char>) -> PathView {
    PathView {
        base: appdata,
        segments: seq![
            "Microsoft\\Windows\\Start Menu\\Programs\\Startup\\Dropmazter Agent.lnk"@,
        ],
    }
}

/// The folder of the agent's own files.
pub open spec fn data_folder(local_app_data: Seq<char>) -> PathView {
    PathView { base: local_app_data, segments: seq!["Dropmazter"@] }
}

/// The steps that remove all that the agent has set up.
pub open spec fn removals(
    userprofile: Option<Seq<char>>,
    appdata: Option<Seq<char>>,
    local_app_data: Option<Seq<char>>,
) -> Seq<StepView> {
    step_at(userprofile, |dir: Seq<char>| StepView::RemoveFile(desktop_shortcut(dir)))
        + step_at(appdata, |dir: Seq<char>| StepView::RemoveFile(startup_shortcut_to_remove(dir)))
        + seq![
        StepView::RemoveKey(
            "Software\\Microsoft\\Windows\\CurrentVersion\\Uninstall\\DropmazterAgent"@,
        ),
    ] + step_at(local_app_data, |dir: Seq<char>| StepView::RemoveFolder(data_folder(dir)))
}

/// The script that asks the user whether to go on.
pub open spec fn question() -> Seq<char> {
    "Add-Type -AssemblyName PresentationFramework; [System.Windows.MessageBox]::Show('Are you sure you want to uninstall Dropmazter Agent?','Uninstall Dropmazter Agent','YesNo','Question')"@
}

/// The script that tells the user that all is done.
pub open spec fn farewell() -> Seq<char> {
    "Add-Type -AssemblyName PresentationFramework; [System.Windows.MessageBox]::Show('Dropmazter Agent has been uninstalled.','Uninstall Complete','OK','Information')"@
}

/// The removal goes on: it is quiet, or the user has agreed.
pub open spec fn agreed(quiet: bool, answer: Seq<char>) -> bool {
    quiet || trimmed(answer) == "Yes"@
}

/// The steps of a removal.
pub open spec fn uninstall_steps(
    quiet: bool,
    answer: Seq<char>,
    userprofile: Option<Seq<char>>,
    appdata: Option<Seq<char>>,
    local_app_data: Option<Seq<char>>,
) -> Seq<StepView> {
    if !agreed(quiet, answer) {
        Seq::empty()
    } else if quiet {
        removals(userprofile, appdata, local_app_data) + seq![StepView::RemoveSelf]
    } else {
        removals(userprofile, appdata, local_app_data) + seq![
            StepView::Show(farewell()),
            StepView::RemoveSelf,
        ]
    }
}

/// The PowerShell script that asks the user whether to go on; a quiet removal asks
/// nothing.
pub fn confirmation_script(quiet: bool) -> (script: Option<String>)
    ensures
        text_of(script) == (if quiet {
            None
        } else {
            Some(question())
        }),
{
    if quiet {
        None
    } else {
        Some(
            "Add-Type -AssemblyName PresentationFramework; [System.Windows.MessageBox]::Show('Are you sure you want to uninstall Dropmazter Agent?','Uninstall Dropmazter Agent','YesNo','Question')".to_owned(),
        )
    }
}

fn push_step(steps: &mut Vec<UninstallStep>, step: UninstallStep)
    ensures
        step_views(final(steps)@) == step_views(old(steps)@).push(step@),
{
    let ghost before = step_views(steps@);
    steps.push(step);
    assert(step_views(steps@) =~= before.push(step@));
}

/// The steps of a removal, from what the confirmation script has printed. What it has
/// printed does not matter to a quiet removal.
pub fn run_uninstall(quiet: bool, answer: &str, places: &Places) -> (steps: Vec<UninstallStep>)
    ensures
        step_views(steps@) == uninstall_steps(
            quiet,
            answer@,
            text_of(places.userprofile),
            text_of(places.appdata),
            text_of(places.local_app_data),
        ),
{
    let mut steps: Vec<UninstallStep> = Vec::new();
    assert(step_views(steps@) =~= Seq::<StepView>::empty());
    if !quiet {
        let answer: String = trim(answer);
        if !same_text(answer.as_str(), "Yes") {
            return steps;
        }
    }
    if let Some(dir) = &places.userprofile {
        push_step(
            &mut steps,
            UninstallStep::RemoveFile(
                path_of_two(dir.as_str(), "Desktop", "Dropmazter Agent.lnk"),
            ),
        );
    }
    if let Some(dir) = &places.appdata {
        push_step(
            &mut steps,
            UninstallStep::RemoveFile(
                path_of_one(
                    dir.as_str(),
                    "Microsoft\\Windows\\Start Menu\\Programs\\Startup\\Dropmazter Agent.lnk",
                ),
            ),
        );
    }
    push_step(&mut steps, UninstallStep::RemoveKey(uninstall_key()));
    if let Some(dir) = &places.local_app_data {
        push_step(&mut steps, UninstallStep::RemoveFolder(path_of_one(dir.as_str(), "Dropmazter")));
    }
    let ghost removed = removals(
        text_of(places.userprofile),
        text_of(places.appdata),
        text_of(places.local_app_data),
    );
    assert(step_views(steps@) =~= removed);
    if !quiet {
        push_step(
            &mut steps,
            UninstallStep::Show(
                "Add-Type -AssemblyName PresentationFramework; [System.Windows.MessageBox]::Show('Dropmazter Agent has been uninstalled.','Uninstall Complete','OK','Information')".to_owned(),
            ),
        );
    }
    push_step(&mut steps, UninstallStep::RemoveSelf);
    assert(step_views(steps@) =~= uninstall_steps(
        quiet,
        answer@,
        text_of(places.userprofile),
        text_of(places.appdata),
        text_of(places.local_app_data),
    ));
    steps
}

/// How a step of the removal ended.
#[derive(Debug)]
pub enum StepEnd {
    Done,
    Failed,
    /// The path of the program is not known, for this reason.
    ExeUnknown(String),
}

/// The error with which a removal ends after a step, if it does: only the last step can
/// fail, and only where the program does not know its own path.
pub open spec fn step_error(step: StepView, end: StepEnd) -> Option<Seq<char>> {
    match (step, end) {
        (StepView::RemoveSelf, StepEnd::ExeUnknown(reason)) => Some(reason@),
        _ => None,
    }
}

/// Decides whether the removal goes on after a step. Whatever could not be removed is
/// left behind.
pub fn after_step(step: &UninstallStep, end: StepEnd) -> (r: Result<(), String>)
    ensures
        match step_error(step@, end) {
            Some(reason) => r matches Err(e) && e@ == reason,
            None => r is Ok,
        },
{
    match (step, end) {
        (UninstallStep::RemoveSelf, StepEnd::ExeUnknown(reason)) => Err(reason),
        _ => Ok(()),
    }
}

/// The arguments of `cmd` that remove the program two seconds later.
pub fn self_removal_args(exe: &str) -> (args: Vec<String>)
    ensures
        views(args@) == seq![
            "/C"@,
            "timeout"@,
            "/t"@,
            "2"@,
            "/nobreak"@,
            ">nul"@,
            "&"@,
            "del"@,
            "/f"@,
            "/q"@,
            exe@,
        ],
{
    let mut args: Vec<String> = Vec::new();
    args.push("/C".to_owned());
    args.push("timeout".to_owned());
    args.push("/t".to_owned());
    args.push("2".to_owned());
    args.push("/nobreak".to_owned());
    args.push(">nul".to_owned());
    args.push("&".to_owned());
    args.push("del".to_owned());
    args.push("/f".to_owned());
    args.push("/q".to_owned());
    args.push(exe.to_owned());
    assert(views(args@) =~= seq![
        "/C"@,
        "timeout"@,
        "/t"@,
        "2"@,
        "/nobreak"@,
        ">nul"@,
        "&"@,
        "del"@,
        "/f"@,
        "/q"@,
        exe@,
    ]);
    args
}

// ---------------------------------------------------------------------------
// Laws
// ---------------------------------------------------------------------------

/// Nothing at all is removed where the user does not agree.
pub proof fn law_without_consent_nothing_happens(
    answer: Seq<char>,
    userprofile: Option<Seq<char>>,
    appdata: Option<Seq<char>>,
    local_app_data: Option<Seq<char>>,
)
    requires
        trimmed(answer) != "Yes"@,
    ensures
        uninstall_steps(false, answer, userprofile, appdata, local_app_data).len() == 0,
{
}

/// A quiet removal shows nothing; any other ends with a message. Both remove the same,
/// and the program itself last.
pub proof fn law_quiet_removals_show_nothing(
    answer: Seq<char>,
    userprofile: Option<Seq<char>>,
    appdata: Option<Seq<char>>,
    local_app_data: Option<Seq<char>>,
)
    requires
        trimmed(answer) == "Yes"@,
    ensures
        ({
            let quiet = uninstall_steps(true, answer, userprofile, appdata, local_app_data);
            let shown = uninstall_steps(false, answer, userprofile, appdata, local_app_data);
            &&& forall|i: int| 0 <= i < quiet.len() ==> !((#[trigger] quiet[i]) is Show)
            &&& quiet.last() is RemoveSelf
            &&& shown == quiet.drop_last() + seq![StepView::Show(farewell()), StepView::RemoveSelf]
        }),
{
    let quiet = uninstall_steps(true, answer, userprofile, appdata, local_app_data);
    assert(quiet.drop_last() =~= removals(userprofile, appdata, local_app_data));
}

/// No failure stops a removal: whatever becomes of a step before the last, the removal
/// goes on.
pub proof fn law_failures_do_not_stop_a_removal(
    quiet: bool,
    answer: Seq<char>,
    userprofile: Option<Seq<char>>,
    appdata: Option<Seq<char>>,
    local_app_data: Option<Seq<char>>,
    i: int,
    end: StepEnd,
)
    requires
        0 <= i < uninstall_steps(quiet, answer, userprofile, appdata, local_app_data).len() - 1,
    ensures
        step_error(
            uninstall_steps(quiet, answer, userprofile, appdata, local_app_data)[i],
            end,
        ) is None,
{
}

/// The startup shortcut that is removed is the one that was made.
pub proof fn law_startup_shortcut_is_found_again(appdata: Seq<char>)
    ensures
        windows_path(startup_shortcut_to_remove(appdata)) == windows_path(startup_shortcut(appdata)),
{
    let made = startup_shortcut(appdata).segments;
    lemma_path_of_prefix(appdata, made, 0);
    lemma_path_of_prefix(appdata, made, 1);
    lemma_path_of_prefix(appdata, made, 2);
    lemma_path_of_prefix(appdata, made, 3);
    lemma_path_of_prefix(appdata, made, 4);
    lemma_path_of_prefix(appdata, made, 5);
    assert(made.take(6) =~= made);
    let removed = startup_shortcut_to_remove(appdata).segments;
    lemma_path_of_prefix(appdata, removed, 0);
    assert(removed.take(1) =~= removed);
    lemma_startup_folder();
    let two = "Microsoft"@ + seq!['\\'] + "Windows"@;
    let three = two + seq!['\\'] + "Start Menu"@;
    let four = three + seq!['\\'] + "Programs"@;
    let five = four + seq!['\\'] + "Startup"@;
    lemma_joined_in_two(appdata, "Microsoft"@, "Windows"@);
    lemma_joined_in_two(appdata, two, "Start Menu"@);
    lemma_joined_in_two(appdata, three, "Programs"@);
    lemma_joined_in_two(appdata, four, "Startup"@);
    lemma_joined_in_two(appdata, five, "Dropmazter Agent.lnk"@);
}

/// The path of the startup shortcut, put together from its segments.
proof fn lemma_startup_folder()
    ensures
        "Microsoft"@.len() > 2,
        is_name("Microsoft"@),
        is_name("Windows"@),
        is_name("Start Menu"@),
        is_name("Programs"@),
        is_name("Startup"@),
        "Microsoft"@ + seq!['\\'] + "Windows"@ + seq!['\\'] + "Start Menu"@ + seq!['\\']
            + "Programs"@ + seq!['\\'] + "Startup"@ + seq!['\\'] + "Dropmazter Agent.lnk"@
            == "Microsoft\\Windows\\Start Menu\\Programs\\Startup\\Dropmazter Agent.lnk"@,
{
    reveal_strlit("Microsoft");
    reveal_strlit("Windows");
    reveal_strlit("Start Menu");
    reveal_strlit("Programs");
    reveal_strlit("Startup");
    reveal_strlit("Dropmazter Agent.lnk");
    reveal_strlit("Microsoft\\Windows\\Start Menu\\Programs\\Startup\\Dropmazter Agent.lnk");
    assert("Microsoft"@ + seq!['\\'] + "Windows"@ + seq!['\\'] + "Start Menu"@ + seq!['\\']
        + "Programs"@ + seq!['\\'] + "Startup"@ + seq!['\\'] + "Dropmazter Agent.lnk"@
        =~= "Microsoft\\Windows\\Start Menu\\Programs\\Startup\\Dropmazter Agent.lnk"@);
}

/// A segment that does not end in a separator.
spec fn is_name(segment: Seq<char>) -> bool {
    segment.len() > 0 && segment.last() != '\\' && segment.last() != '/'
}

/// To join two segments one after the other is to join them at once.
proof fn lemma_joined_in_two(path: Seq<char>, first: Seq<char>, second: Seq<char>)
    requires
        first.len() > 2,
        is_name(first),
    ensures
        joined(joined(path, first), second) == joined(path, first + seq!['\\'] + second),
        is_name(second) ==> is_name(first + seq!['\\'] + second),
{
    assert(joined(path, first).last() == first.last());
    assert(joined(joined(path, first), second) =~= joined(path, first + seq!['\\'] + second));
}

/// A plan of one segment more stands for a path of one segment more.
proof fn lemma_path_of_prefix(base: Seq<char>, segments: Seq<Seq<char>>, n: int)
    requires
        0 <= n < segments.len(),
    ensures
        windows_path(PathView { base, segments: segments.take(n + 1) }) == joined(
            windows_path(PathView { base, segments: segments.take(n) }),
            segments[n],
        ),
        n == 0 ==> windows_path(PathView { base, segments: segments.take(n) }) == base,
{
    assert(segments.take(n + 1).drop_last() =~= segments.take(n));
}

/// The folder that is removed is the one in which the agent keeps its files.
pub proof fn law_own_files_are_removed(local_app_data: Seq<char>, name: Seq<char>)
    ensures
        ({
            let folder = windows_path(data_folder(local_app_data));
            let file = windows_path(agent_file(Some(local_app_data), name));
            file == folder + seq!['\\'] + name
        }),
{
    reveal_strlit("Dropmazter");
    let segments = agent_file(Some(local_app_data), name).segments;
    lemma_path_of_prefix(local_app_data, segments, 0);
    lemma_path_of_prefix(local_app_data, segments, 1);
    assert(segments.take(2) =~= segments);
    assert(segments.take(1) =~= data_folder(local_app_data).segments);
    let folder = windows_path(data_folder(local_app_data));
    assert(folder.last() == 'r' && folder.len() > 2);
}

/// A removal that goes on leaves nothing behind that it knows a place for: both shortcuts,
/// the entry among the installed programs, the agent's own files and the program itself.
pub proof fn law_every_trace_is_removed(
    quiet: bool,
    answer: Seq<char>,
    userprofile: Option<Seq<char>>,
    appdata: Option<Seq<char>>,
    local_app_data: Option<Seq<char>>,
)
    requires
        quiet || trimmed(answer) == "Yes"@,
    ensures
        ({
            let steps = uninstall_steps(quiet, answer, userprofile, appdata, local_app_data);
            &&& userprofile matches Some(dir) ==> steps.contains(
                StepView::RemoveFile(
                    PathView { base: dir, segments: seq!["Desktop"@, "Dropmazter Agent.lnk"@] },
                ),
            )
            &&& appdata matches Some(dir) ==> exists|path: PathView| #[trigger]
                steps.contains(StepView::RemoveFile(path)) && windows_path(path) == windows_path(
                    startup_shortcut(dir),
                )
            &&& steps.contains(
                StepView::RemoveKey(
                    "Software\\Microsoft\\Windows\\CurrentVersion\\Uninstall\\DropmazterAgent"@,
                ),
            )
            &&& local_app_data matches Some(dir) ==> steps.contains(
                StepView::RemoveFolder(PathView { base: dir, segments: seq!["Dropmazter"@] }),
            )
            &&& steps.last() is RemoveSelf
        }),
{
    let steps = uninstall_steps(quiet, answer, userprofile, appdata, local_app_data);
    let a: int = if userprofile is Some { 1 } else { 0 };
    let b: int = if appdata is Some { 1 } else { 0 };
    if let Some(dir) = userprofile {
        assert(steps[0] == StepView::RemoveFile(desktop_shortcut(dir)));
    }
    if let Some(dir) = appdata {
        assert(steps[a] == StepView::RemoveFile(startup_shortcut_to_remove(dir)));
        assert(steps.contains(StepView::RemoveFile(startup_shortcut_to_remove(dir))));
        law_startup_shortcut_is_found_again(dir);
    }
    assert(steps[a + b] is RemoveKey);
    if let Some(dir) = local_app_data {
        assert(steps[a + b + 1] == StepView::RemoveFolder(data_folder(dir)));
    }
}

/// Nothing but that is removed: every file and folder lies under the folder that the
/// system names for it.
pub proof fn law_nothing_else_is_removed(
    quiet: bool,
    answer: Seq<char>,
    userprofile: Option<Seq<char>>,
    appdata: Option<Seq<char>>,
    local_app_data: Option<Seq<char>>,
    i: int,
)
    requires
        0 <= i < uninstall_steps(quiet, answer, userprofile, appdata, local_app_data).len(),
    ensures
        match uninstall_steps(quiet, answer, userprofile, appdata, local_app_data)[i] {
            StepView::RemoveFile(path) => {
                &&& Some(path.base) == userprofile || Some(path.base) == appdata
                &&& path.segments.len() > 0
            },
            StepView::RemoveFolder(path) => Some(path.base) == local_app_data && path.segments
                == seq!["Dropmazter"@],
            _ => true,
        },
{
}

} // verus!
