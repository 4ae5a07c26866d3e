//! Where the agent keeps its files, and the rules of its log.

use vstd::prelude::*;
use vstd::string::*;
use crate::text::views;

verus! {

/// A path as a base and the segments to be joined to it, one after the other.
#[derive(Debug)]
pub struct PathPlan {
    pub base: String,
    pub segments: Vec<String>,
}

/// The contents of a path plan.
pub struct PathView {
    pub base: Seq<char>,
    pub segments: Seq<Seq<char>>,
}

impl View for PathPlan {
    type V = PathView;

    open spec fn view(&self) -> PathView {
        PathView { base: self.base@, segments: views(self.segments@) }
    }
}

/// The contents of an optional string.
pub open spec fn text_of(text: Option<String>) -> Option<Seq<char>> {
    match text {
        Some(s) => Some(s@),
        None => None,
    }
}

/// A path that takes a separator before the next segment: one that is not empty, does
/// not end in a separator, and is not a bare drive.
pub open spec fn takes_separator(path: Seq<char>) -> bool {
    path.len() > 0 && path.last() != '\\' && path.last() != '/' && !(path.len() == 2 && path[1]
        == ':')
}

/// A path with one more segment.
pub open spec fn joined(path: Seq<char>, segment: Seq<char>) -> Seq<char> {
    if takes_separator(path) {
        path + seq!['\\'] + segment
    } else {
        path + segment
    }
}

/// The path that a plan stands for on Windows, where no segment is absolute.
pub open spec fn windows_path(path: PathView) -> Seq<char>
    decreases path.segments.len(),
{
    if path.segments.len() == 0 {
        path.base
    } else {
        joined(
            windows_path(PathView { base: path.base, segments: path.segments.drop_last() }),
            path.segments.last(),
        )
    }
}

/// A plan with one segment.
pub fn path_of_one(base: &str, first: &str) -> (path: PathPlan)
    ensures
        path@.base == base@,
        path@.segments == seq![first@],
{
    let mut segments: Vec<String> = Vec::new();
    segments.push(first.to_owned());
    assert(views(segments@) =~= seq![first@]);
    PathPlan { base: base.to_owned(), segments }
}

/// A plan with two segments.
pub fn path_of_two(base: &str, first: &str, second: &str) -> (path: PathPlan)
    ensures
        path@.base == base@,
        path@.segments == seq![first@, second@],
{
    let mut segments: Vec<String> = Vec::new();
    segments.push(first.to_owned());
    segments.push(second.to_owned());
    assert(views(segments@) =~= seq![first@, second@]);
    PathPlan { base: base.to_owned(), segments }
}

/// A plan without segments.
pub fn path_of_none(base: &str) -> (path: PathPlan)
    ensures
        path@.base == base@,
        path@.segments == Seq::<Seq<char>>::empty(),
{
    let segments: Vec<String> = Vec::new();
    assert(views(segments@) =~= Seq::<Seq<char>>::empty());
    PathPlan { base: base.to_owned(), segments }
}

/// A file of the agent: in its folder under the local application data, or in the
/// current folder where there is none.
pub open spec fn agent_file(local_app_data: Option<Seq<char>>, name: Seq<char>) -> PathView {
    match local_app_data {
        Some(dir) => PathView { base: dir, segments: seq!["Dropmazter"@, name] },
        None => PathView { base: name, segments: Seq::empty() },
    }
}

fn plan_agent_file(local_app_data: &Option<String>, name: &str) -> (path: PathPlan)
    ensures
        path@ == agent_file(text_of(*local_app_data), name@),
{
    match local_app_data {
        Some(dir) => path_of_two(dir.as_str(), "Dropmazter", name),
        None => path_of_none(name),
    }
}

/// The path of the log file.
pub fn get_log_path(local_app_data: &Option<String>) -> (path: PathPlan)
    ensures
        path@ == agent_file(text_of(*local_app_data), "agent.log"@),
{
    plan_agent_file(local_app_data, "agent.log")
}

/// The path of the config file, which holds the login token.
pub fn get_config_path(local_app_data: &Option<String>) -> (path: PathPlan)
    ensures
        path@ == agent_file(text_of(*local_app_data), "config.json"@),
{
    plan_agent_file(local_app_data, "config.json")
}

/// The path of the file whose presence says that the agent was set up before. It
/// stands beside the log file.
pub fn first_run_marker(local_app_data: &Option<String>) -> (path: PathPlan)
    ensures
        path@ == agent_file(text_of(*local_app_data), ".installed"@),
{
    plan_agent_file(local_app_data, ".installed")
}

/// The path of the tray icon on disk.
pub fn get_icon_path(local_app_data: &Option<String>) -> (path: PathPlan)
    ensures
        path@ == (match text_of(*local_app_data) {
            Some(dir) => PathView { base: dir, segments: seq!["Dropmazter"@, "tray.ico"@] },
            None => PathView { base: "."@, segments: seq!["tray.ico"@] },
        }),
{
    match local_app_data {
        Some(dir) => path_of_two(dir.as_str(), "Dropmazter", "tray.ico"),
        None => path_of_one(".", "tray.ico"),
    }
}

// ---------------------------------------------------------------------------
// The log
// ---------------------------------------------------------------------------

/// A log file longer than this is started anew.
pub const MAX_LOG_BYTES: u64 = 5242880;

/// Decides whether a log file of this length is started anew.
pub fn log_is_too_long(length: u64) -> (r: bool)
    ensures
        r == (length > 5 * 1024 * 1024),
{
    length > MAX_LOG_BYTES
}

/// Writes one line of the log.
pub fn log_line(timestamp: &str, level: &str, message: &str) -> (line: String)
    ensures
        line@ == "["@ + timestamp@ + "] ["@ + level@ + "] "@ + message@ + "\n"@,
{
    let mut line: String = "[".to_owned();
    line.append(timestamp);
    line.append("] [");
    line.append(level);
    line.append("] ");
    line.append(message);
    line.append("\n");
    line
}

/// The arguments of `cmd` that open a window which follows the log file.
pub fn open_logs(log_path: &str) -> (args: Vec<String>)
    ensures
        views(args@) == seq![
            "/C"@,
            "start"@,
            "powershell"@,
            "-NoExit"@,
            "-Command"@,
            "Get-Content '"@ + log_path@ + "' -Tail 50 -Wait"@,
        ],
{
    let mut follow: String = "Get-Content '".to_owned();
    follow.append(log_path);
    follow.append("' -Tail 50 -Wait");
    let mut args: Vec<String> = Vec::new();
    args.push("/C".to_owned());
    args.push("start".to_owned());
    args.push("powershell".to_owned());
    args.push("-NoExit".to_owned());
    args.push("-Command".to_owned());
    args.push(follow);
    assert(views(args@) =~= seq![
        "/C"@,
        "start"@,
        "powershell"@,
        "-NoExit"@,
        "-Command"@,
        "Get-Content '"@ + log_path@ + "' -Tail 50 -Wait"@,
    ]);
    args
}

// ---------------------------------------------------------------------------
// Laws
// ---------------------------------------------------------------------------

/// A file of the agent lies in the folder Dropmazter of the local application data, and in
/// the current folder where there is none.
pub proof fn law_files_of_the_agent_lie_together(dir: Seq<char>, name: Seq<char>)
    ensures
        agent_file(None, name).base == name,
        agent_file(None, name).segments.len() == 0,
        agent_file(Some(dir), name).base == dir,
        agent_file(Some(dir), name).segments.len() == 2,
        agent_file(Some(dir), name).segments.first() == "Dropmazter"@,
        agent_file(Some(dir), name).segments.last() == name,
{
}

} // verus!
