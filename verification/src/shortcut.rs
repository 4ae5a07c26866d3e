//! Shortcuts to the agent on the desktop and in the startup folder.

use vstd::prelude::*;
use vstd::string::*;
use crate::paths::{PathPlan, PathView, path_of_two, text_of};
use crate::text::{occurs_at, occurs_in, views};

verus! {

/// The paths that a shortcut speaks of.
#[derive(Debug)]
pub struct ShortcutPaths {
    /// The shortcut itself.
    pub shortcut: String,
    /// The program that it starts.
    pub exe: String,
    /// The folder of that program.
    pub exe_dir: String,
}

/// What to do about a shortcut.
#[derive(Debug)]
pub enum ShortcutStep {
    /// Nothing; this is no failure.
    Nothing,
    /// Run this PowerShell script.
    Run(String),
    /// Give up, for this reason.
    Fail(String),
}

/// How a PowerShell script ended.
#[derive(Debug)]
pub enum ScriptEnd {
    Succeeded,
    /// It ran and failed, with this on its error output.
    Failed(String),
    /// It could not be started.
    NotStarted(String),
}

// ---------------------------------------------------------------------------
// Places
// ---------------------------------------------------------------------------

/// The shortcut on the desktop of a user.
pub open spec fn desktop_shortcut(userprofile: Seq<char>) -> PathView {
    PathView { base: userprofile, segments: seq!["Desktop"@, "Dropmazter Agent.lnk"@] }
}

/// The shortcut in the startup folder.
pub open spec fn startup_shortcut(appdata: Seq<char>) -> PathView {
    PathView {
        base: appdata,
        segments: seq![
            "Microsoft"@,
            "Windows"@,
            "Start Menu"@,
            "Programs"@,
            "Startup"@,
            "Dropmazter Agent.lnk"@,
        ],
    }
}

/// Where the desktop shortcut goes; nowhere without a user profile.
pub fn desktop_shortcut_path(userprofile: &Option<String>) -> (path: Option<PathPlan>)
    ensures
        path is Some == userprofile is Some,
        path matches Some(p) ==> p@ == desktop_shortcut(text_of(*userprofile)->0),
{
    match userprofile {
        Some(dir) => Some(path_of_two(dir.as_str(), "Desktop", "Dropmazter Agent.lnk")),
        None => None,
    }
}

/// Where the startup shortcut goes; nowhere without application data.
pub fn startup_shortcut_path(appdata: &Option<String>) -> (path: Option<PathPlan>)
    ensures
        path is Some == appdata is Some,
        path matches Some(p) ==> p@ == startup_shortcut(text_of(*appdata)->0),
{
    match appdata {
        Some(dir) => {
            let mut segments: Vec<String> = Vec::new();
            segments.push("Microsoft".to_owned());
            segments.push("Windows".to_owned());
            segments.push("Start Menu".to_owned());
            segments.push("Programs".to_owned());
            segments.push("Startup".to_owned());
            segments.push("Dropmazter Agent.lnk".to_owned());
            assert(views(segments@) =~= startup_shortcut(dir@).segments);
            Some(PathPlan { base: dir.clone(), segments })
        },
        None => None,
    }
}

// ---------------------------------------------------------------------------
// Making a shortcut
// ---------------------------------------------------------------------------

/// The PowerShell script that makes a shortcut. The icon comes from the program.
pub open spec fn script_for(shortcut: Seq<char>, exe: Seq<char>, exe_dir: Seq<char>) -> Seq<char> {
    "$WshShell = New-Object -comObject WScript.Shell; $Shortcut = $WshShell.CreateShortcut('"@
        + shortcut + "'); $Shortcut.TargetPath = '"@ + exe + "'; $Shortcut.WorkingDirectory = '"@
        + exe_dir
        + "'; $Shortcut.Description = 'Dropmazter Desktop Agent'; $Shortcut.IconLocation = '"@ + exe
        + ",0'; $Shortcut.Save()"@
}

/// Writes the PowerShell script that makes a shortcut.
pub fn shortcut_script(paths: &ShortcutPaths) -> (script: String)
    ensures
        script@ == script_for(paths.shortcut@, paths.exe@, paths.exe_dir@),
{
    let mut script: String =
        "$WshShell = New-Object -comObject WScript.Shell; $Shortcut = $WshShell.CreateShortcut('".to_owned();
    script.append(paths.shortcut.as_str());
    script.append("'); $Shortcut.TargetPath = '");
    script.append(paths.exe.as_str());
    script.append("'; $Shortcut.WorkingDirectory = '");
    script.append(paths.exe_dir.as_str());
    script.append(
        "'; $Shortcut.Description = 'Dropmazter Desktop Agent'; $Shortcut.IconLocation = '",
    );
    script.append(paths.exe.as_str());
    script.append(",0'; $Shortcut.Save()");
    script
}

/// The step runs the script for these paths.
pub open spec fn runs_script(step: ShortcutStep, paths: ShortcutPaths) -> bool {
    step matches ShortcutStep::Run(script) && script@ == script_for(
        paths.shortcut@,
        paths.exe@,
        paths.exe_dir@,
    )
}

/// Makes the desktop shortcut, unless there is no place for it or it exists already.
pub fn create_desktop_shortcut(paths: &Option<ShortcutPaths>, exists: bool) -> (step: ShortcutStep)
    ensures
        match paths {
            Some(p) => if exists {
                step is Nothing
            } else {
                runs_script(step, *p)
            },
            None => step is Nothing,
        },
{
    match paths {
        Some(p) => {
            if exists {
                ShortcutStep::Nothing
            } else {
                ShortcutStep::Run(shortcut_script(p))
            }
        },
        None => ShortcutStep::Nothing,
    }
}

/// Makes the startup shortcut where the user has enabled it, unless there is no place for
/// it or it exists already.
pub fn create_startup_shortcut(
    paths: &Option<ShortcutPaths>,
    exists: bool,
    run_on_startup: bool,
) -> (step: ShortcutStep)
    ensures
        match paths {
            Some(p) => if !run_on_startup || exists {
                step is Nothing
            } else {
                runs_script(step, *p)
            },
            None => step is Nothing,
        },
{
    if run_on_startup {
        create_desktop_shortcut(paths, exists)
    } else {
        ShortcutStep::Nothing
    }
}

/// Makes the desktop shortcut even where one exists already; to have no place for it
/// is a failure.
pub fn create_desktop_shortcut_force(paths: &Option<ShortcutPaths>) -> (step: ShortcutStep)
    ensures
        match paths {
            Some(p) => runs_script(step, *p),
            None => step matches ShortcutStep::Fail(reason) && reason@
                == "Could not find Desktop folder"@,
        },
{
    match paths {
        Some(p) => ShortcutStep::Run(shortcut_script(p)),
        None => ShortcutStep::Fail("Could not find Desktop folder".to_owned()),
    }
}

/// How the making of a shortcut during the setup ended.
#[derive(Debug)]
pub enum ShortcutEnd {
    /// The path of the program is not known, for this reason.
    ExeUnknown(String),
    /// There was nothing to make.
    NothingToDo,
    /// The script was run, or was to be.
    Ran(ScriptEnd),
}

/// The result of making a shortcut during the setup. A script that fails is no failure:
/// the agent runs without the shortcut. Only a program that does not know its own path
/// cannot be set up.
pub fn setup_shortcut_result(end: ShortcutEnd) -> (r: Result<(), String>)
    ensures
        match end {
            ShortcutEnd::ExeUnknown(reason) => r matches Err(e) && e@ == reason@,
            ShortcutEnd::NothingToDo => r is Ok,
            ShortcutEnd::Ran(_) => r is Ok,
        },
{
    match end {
        ShortcutEnd::ExeUnknown(reason) => Err(reason),
        ShortcutEnd::NothingToDo => Ok(()),
        ShortcutEnd::Ran(_) => Ok(()),
    }
}

/// The result of making the desktop shortcut on request, from the end of its script.
pub fn forced_shortcut_result(end: &ScriptEnd) -> (r: Result<(), String>)
    ensures
        match end {
            ScriptEnd::Succeeded => r is Ok,
            ScriptEnd::Failed(err) => r matches Err(e) && e@ == "PowerShell failed: "@ + err@,
            ScriptEnd::NotStarted(err) => r matches Err(e) && e@ == "PowerShell error: "@ + err@,
        },
{
    match end {
        ScriptEnd::Succeeded => Ok(()),
        ScriptEnd::Failed(err) => {
            let mut text: String = "PowerShell failed: ".to_owned();
            text.append(err.as_str());
            Err(text)
        },
        ScriptEnd::NotStarted(err) => {
            let mut text: String = "PowerShell error: ".to_owned();
            text.append(err.as_str());
            Err(text)
        },
    }
}

// ---------------------------------------------------------------------------
// Laws
// ---------------------------------------------------------------------------

/// The script makes the shortcut at its place, has it start the program in the folder of
/// the program, and takes the icon from the program: each path stands in the script, whole
/// and in quotes, where PowerShell expects it.
pub proof fn law_script_names_its_paths(shortcut: Seq<char>, exe: Seq<char>, exe_dir: Seq<char>)
    ensures
        ({
            let script = script_for(shortcut, exe, exe_dir);
            &&& occurs_in(script, "CreateShortcut('"@ + shortcut + "')"@)
            &&& occurs_in(script, "$Shortcut.TargetPath = '"@ + exe + "'"@)
            &&& occurs_in(script, "$Shortcut.WorkingDirectory = '"@ + exe_dir + "'"@)
            &&& occurs_in(script, "$Shortcut.IconLocation = '"@ + exe + ",0'"@)
        }),
{
    let p0 =
        "$WshShell = New-Object -comObject WScript.Shell; $Shortcut = $WshShell.CreateShortcut('"@;
    let p1 = "'); $Shortcut.TargetPath = '"@;
    let p2 = "'; $Shortcut.WorkingDirectory = '"@;
    let p3 = "'; $Shortcut.Description = 'Dropmazter Desktop Agent'; $Shortcut.IconLocation = '"@;
    let p4 = ",0'; $Shortcut.Save()"@;
    let script = script_for(shortcut, exe, exe_dir);
    lemma_script_pieces();
    let b0 = "CreateShortcut('"@;
    let b1 = "$Shortcut.TargetPath = '"@;
    let b2 = "$Shortcut.WorkingDirectory = '"@;
    let b3 = "$Shortcut.IconLocation = '"@;
    assert(script =~= p0 + shortcut + p1 + exe + p2 + exe_dir + p3 + exe + p4);
    lemma_piece_stands(p0, b0, Seq::empty(), shortcut, "')"@, p1, exe + p2 + exe_dir + p3 + exe + p4);
    lemma_piece_stands(p1, b1, p0 + shortcut, exe, "'"@, p2, exe_dir + p3 + exe + p4);
    lemma_piece_stands(p2, b2, p0 + shortcut + p1 + exe, exe_dir, "'"@, p3, exe + p4);
    lemma_piece_stands(
        p3,
        b3,
        p0 + shortcut + p1 + exe + p2 + exe_dir,
        exe,
        ",0'"@,
        p4,
        Seq::empty(),
    );
    assert(Seq::<char>::empty() + p0 + shortcut + p1 + (exe + p2 + exe_dir + p3 + exe + p4) =~= script);
    assert(p0 + shortcut + p1 + exe + p2 + (exe_dir + p3 + exe + p4) =~= script);
    assert(p0 + shortcut + p1 + exe + p2 + exe_dir + p3 + (exe + p4) =~= script);
    assert(p0 + shortcut + p1 + exe + p2 + exe_dir + p3 + exe + p4 + Seq::<char>::empty() =~= script);
}

/// A path between the end of one piece and the start of the next stands in the whole.
proof fn lemma_piece_stands(
    piece: Seq<char>,
    end: Seq<char>,
    before: Seq<char>,
    path: Seq<char>,
    start: Seq<char>,
    next: Seq<char>,
    after: Seq<char>,
)
    requires
        end.len() <= piece.len(),
        piece.subrange(piece.len() - end.len(), piece.len() as int) == end,
        start.len() <= next.len(),
        next.subrange(0, start.len() as int) == start,
    ensures
        occurs_in(before + piece + path + next + after, end + path + start),
{
    let whole = before + piece + path + next + after;
    let at = before.len() + piece.len() - end.len();
    let sought = end + path + start;
    assert forall|k: int| 0 <= k < sought.len() implies whole[at + k] == sought[k] by {
        if k < end.len() {
            assert(piece.subrange(piece.len() - end.len(), piece.len() as int)[k] == end[k]);
        } else if k >= end.len() + path.len() {
            let m = k - end.len() - path.len();
            assert(next.subrange(0, start.len() as int)[m] == start[m]);
        }
    }
    assert(whole.subrange(at, at + sought.len()) =~= sought);
    assert(occurs_at(whole, sought, at));
}

/// The pieces of the script begin and end as the paths between them need it.
proof fn lemma_script_pieces()
    ensures
        ({
            let p0 =
                "$WshShell = New-Object -comObject WScript.Shell; $Shortcut = $WshShell.CreateShortcut('"@;
            let p1 = "'); $Shortcut.TargetPath = '"@;
            let p2 = "'; $Shortcut.WorkingDirectory = '"@;
            let p3 =
                "'; $Shortcut.Description = 'Dropmazter Desktop Agent'; $Shortcut.IconLocation = '"@;
            let p4 = ",0'; $Shortcut.Save()"@;
            &&& ends_with(p0, "CreateShortcut('"@)
            &&& ends_with(p1, "$Shortcut.TargetPath = '"@)
            &&& ends_with(p2, "$Shortcut.WorkingDirectory = '"@)
            &&& ends_with(p3, "$Shortcut.IconLocation = '"@)
            &&& "')"@.len() <= p1.len() && p1.subrange(0, "')"@.len() as int) == "')"@
            &&& "'"@.len() <= p2.len() && p2.subrange(0, "'"@.len() as int) == "'"@
            &&& "'"@.len() <= p3.len() && p3.subrange(0, "'"@.len() as int) == "'"@
            &&& ",0'"@.len() <= p4.len() && p4.subrange(0, ",0'"@.len() as int) == ",0'"@
            &&& "')"@.len() == 2 && "'"@.len() == 1 && ",0'"@.len() == 3
        }),
{
    reveal_strlit(
        "$WshShell = New-Object -comObject WScript.Shell; $Shortcut = $WshShell.CreateShortcut('",
    );
    reveal_strlit("'); $Shortcut.TargetPath = '");
    reveal_strlit("'; $Shortcut.WorkingDirectory = '");
    reveal_strlit("'; $Shortcut.Description = 'Dropmazter Desktop Agent'; $Shortcut.IconLocation = '");
    reveal_strlit(",0'; $Shortcut.Save()");
    reveal_strlit("CreateShortcut('");
    reveal_strlit("$Shortcut.TargetPath = '");
    reveal_strlit("$Shortcut.WorkingDirectory = '");
    reveal_strlit("$Shortcut.IconLocation = '");
    reveal_strlit("')");
    reveal_strlit("'");
    reveal_strlit(",0'");
    let p0 =
        "$WshShell = New-Object -comObject WScript.Shell; $Shortcut = $WshShell.CreateShortcut('"@;
    let p1 = "'); $Shortcut.TargetPath = '"@;
    let p2 = "'; $Shortcut.WorkingDirectory = '"@;
    let p3 = "'; $Shortcut.Description = 'Dropmazter Desktop Agent'; $Shortcut.IconLocation = '"@;
    let p4 = ",0'; $Shortcut.Save()"@;
    assert(p0.subrange(p0.len() - "CreateShortcut('"@.len(), p0.len() as int)
        =~= "CreateShortcut('"@);
    assert(p1.subrange(p1.len() - "$Shortcut.TargetPath = '"@.len(), p1.len() as int)
        =~= "$Shortcut.TargetPath = '"@);
    assert(p2.subrange(p2.len() - "$Shortcut.WorkingDirectory = '"@.len(), p2.len() as int)
        =~= "$Shortcut.WorkingDirectory = '"@);
    assert(p3.subrange(p3.len() - "$Shortcut.IconLocation = '"@.len(), p3.len() as int)
        =~= "$Shortcut.IconLocation = '"@);
    assert(p1.subrange(0, 2) =~= "')"@);
    assert(p2.subrange(0, 1) =~= "'"@);
    assert(p3.subrange(0, 1) =~= "'"@);
    assert(p4.subrange(0, 3) =~= ",0'"@);
}

/// The text ends with this.
spec fn ends_with(text: Seq<char>, end: Seq<char>) -> bool {
    end.len() <= text.len() && text.subrange(text.len() - end.len(), text.len() as int) == end
}

} // verus!
