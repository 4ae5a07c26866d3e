//! The entry of the agent in the list of installed programs.

use vstd::prelude::*;
use vstd::string::*;
use crate::window::wrap_u32;

verus! {

/// The version of the agent.
pub fn agent_version() -> (version: String)
    ensures
        version@ == "2.3.0"@,
{
    "2.3.0".to_owned()
}

/// The value of a registry entry.
#[derive(Debug)]
pub enum RegistryValue {
    Text(String),
    Number(u32),
}

/// A named value under a registry key.
#[derive(Debug)]
pub struct RegistryEntry {
    pub name: String,
    pub value: RegistryValue,
}

/// The contents of a registry value.
pub enum RegistryView {
    Text(Seq<char>),
    Number(u32),
}

impl View for RegistryValue {
    type V = RegistryView;

    open spec fn view(&self) -> RegistryView {
        match self {
            RegistryValue::Text(text) => RegistryView::Text(text@),
            RegistryValue::Number(n) => RegistryView::Number(*n),
        }
    }
}

impl View for RegistryEntry {
    type V = (Seq<char>, RegistryView);

    open spec fn view(&self) -> (Seq<char>, RegistryView) {
        (self.name@, self.value@)
    }
}

/// The contents of a list of entries.
pub open spec fn entry_views(entries: Seq<RegistryEntry>) -> Seq<(Seq<char>, RegistryView)> {
    entries.map_values(|e: RegistryEntry| e@)
}

/// The key under the current user that the entry stands under.
pub fn uninstall_key() -> (key: String)
    ensures
        key@ == "Software\\Microsoft\\Windows\\CurrentVersion\\Uninstall\\DropmazterAgent"@,
{
    "Software\\Microsoft\\Windows\\CurrentVersion\\Uninstall\\DropmazterAgent".to_owned()
}

/// The entries that say what is installed and how to remove it.
pub open spec fn program_entries(exe: Seq<char>, exe_dir: Seq<char>) -> Seq<
    (Seq<char>, RegistryView),
> {
    seq![
        ("DisplayName"@, RegistryView::Text("Dropmazter Agent"@)),
        ("DisplayVersion"@, RegistryView::Text("2.3.0"@)),
        ("Publisher"@, RegistryView::Text("Dropmazter"@)),
        ("InstallLocation"@, RegistryView::Text(exe_dir)),
        ("DisplayIcon"@, RegistryView::Text(exe + ",0"@)),
        ("UninstallString"@, RegistryView::Text("\""@ + exe + "\" --uninstall"@)),
        ("QuietUninstallString"@, RegistryView::Text("\""@ + exe + "\" --uninstall --quiet"@)),
        ("NoModify"@, RegistryView::Number(1)),
        ("NoRepair"@, RegistryView::Number(1)),
    ]
}

/// The entry for the installed size in kilobytes, where the size is known.
pub open spec fn size_entries(exe_size: Option<u64>) -> Seq<(Seq<char>, RegistryView)> {
    match exe_size {
        Some(bytes) => seq![
            ("EstimatedSize"@, RegistryView::Number(wrap_u32(bytes as int / 1024))),
        ],
        None => Seq::empty(),
    }
}

/// The entries that say where to find help.
pub open spec fn help_entries() -> Seq<(Seq<char>, RegistryView)> {
    seq![
        ("URLInfoAbout"@, RegistryView::Text("https://dropmazter.com"@)),
        ("HelpLink"@, RegistryView::Text("https://dropmazter.com"@)),
    ]
}

fn push_text(entries: &mut Vec<RegistryEntry>, name: &str, text: String)
    ensures
        entry_views(final(entries)@) == entry_views(old(entries)@).push(
            (name@, RegistryView::Text(text@)),
        ),
{
    let ghost before = entry_views(entries@);
    entries.push(RegistryEntry { name: name.to_owned(), value: RegistryValue::Text(text) });
    assert(entry_views(entries@) =~= before.push((name@, RegistryView::Text(text@))));
}

fn push_number(entries: &mut Vec<RegistryEntry>, name: &str, number: u32)
    ensures
        entry_views(final(entries)@) == entry_views(old(entries)@).push(
            (name@, RegistryView::Number(number)),
        ),
{
    let ghost before = entry_views(entries@);
    entries.push(RegistryEntry { name: name.to_owned(), value: RegistryValue::Number(number) });
    assert(entry_views(entries@) =~= before.push((name@, RegistryView::Number(number))));
}

/// The values to write, in order, so that the agent appears among the installed
/// programs.
pub fn register_in_add_remove_programs(
    exe: &str,
    exe_dir: &str,
    exe_size: Option<u64>,
) -> (entries: Vec<RegistryEntry>)
    ensures
        entry_views(entries@) == program_entries(exe@, exe_dir@) + size_entries(exe_size)
            + help_entries(),
{
    let mut entries: Vec<RegistryEntry> = Vec::new();
    let mut icon: String = exe.to_owned();
    icon.append(",0");
    let mut removal: String = "\"".to_owned();
    removal.append(exe);
    removal.append("\" --uninstall");
    let mut quiet_removal: String = "\"".to_owned();
    quiet_removal.append(exe);
    quiet_removal.append("\" --uninstall --quiet");
    push_text(&mut entries, "DisplayName", "Dropmazter Agent".to_owned());
    push_text(&mut entries, "DisplayVersion", agent_version());
    push_text(&mut entries, "Publisher", "Dropmazter".to_owned());
    push_text(&mut entries, "InstallLocation", exe_dir.to_owned());
    push_text(&mut entries, "DisplayIcon", icon);
    push_text(&mut entries, "UninstallString", removal);
    push_text(&mut entries, "QuietUninstallString", quiet_removal);
    push_number(&mut entries, "NoModify", 1);
    push_number(&mut entries, "NoRepair", 1);
    assert(entry_views(entries@) =~= program_entries(exe@, exe_dir@));
    if let Some(bytes) = exe_size {
        let size_kb: u32 = (bytes / 1024 % 0x1_0000_0000) as u32;
        push_number(&mut entries, "EstimatedSize", size_kb);
    }
    assert(entry_views(entries@) =~= program_entries(exe@, exe_dir@) + size_entries(exe_size));
    push_text(&mut entries, "URLInfoAbout", "https://dropmazter.com".to_owned());
    push_text(&mut entries, "HelpLink", "https://dropmazter.com".to_owned());
    assert(entry_views(entries@) =~= program_entries(exe@, exe_dir@) + size_entries(exe_size)
        + help_entries());
    entries
}

// ---------------------------------------------------------------------------
// Laws
// ---------------------------------------------------------------------------

/// The entries that are written for a program.
pub open spec fn entries_for(exe: Seq<char>, exe_dir: Seq<char>, exe_size: Option<u64>) -> Seq<
    (Seq<char>, RegistryView),
> {
    program_entries(exe, exe_dir) + size_entries(exe_size) + help_entries()
}

/// The list of installed programs shows the agent with its version, its icon and its
/// folder, and names the two ways to remove it: the program with `--uninstall`, and for a
/// quiet removal with `--quiet` too.
pub proof fn law_entry_tells_how_to_remove_the_agent(
    exe: Seq<char>,
    exe_dir: Seq<char>,
    exe_size: Option<u64>,
)
    ensures
        ({
            let entries = entries_for(exe, exe_dir, exe_size);
            let quoted = "\""@ + exe + "\""@;
            &&& entries.contains(("DisplayName"@, RegistryView::Text("Dropmazter Agent"@)))
            &&& entries.contains(("DisplayVersion"@, RegistryView::Text("2.3.0"@)))
            &&& entries.contains(("InstallLocation"@, RegistryView::Text(exe_dir)))
            &&& entries.contains(("DisplayIcon"@, RegistryView::Text(exe + ",0"@)))
            &&& entries.contains(
                ("UninstallString"@, RegistryView::Text(quoted + " --uninstall"@)),
            )
            &&& entries.contains(
                ("QuietUninstallString"@, RegistryView::Text(quoted + " --uninstall --quiet"@)),
            )
            &&& entries.contains(("NoModify"@, RegistryView::Number(1)))
            &&& entries.contains(("NoRepair"@, RegistryView::Number(1)))
            &&& entries.len() == (if exe_size is Some { 12int } else { 11 })
        }),
{
    reveal_strlit("\"");
    reveal_strlit("\" --uninstall");
    reveal_strlit("\" --uninstall --quiet");
    reveal_strlit(" --uninstall");
    reveal_strlit(" --uninstall --quiet");
    let entries = entries_for(exe, exe_dir, exe_size);
    let quoted = "\""@ + exe + "\""@;
    assert("\""@ + exe + "\" --uninstall"@ =~= quoted + " --uninstall"@);
    assert("\""@ + exe + "\" --uninstall --quiet"@ =~= quoted + " --uninstall --quiet"@);
    assert(entries[0].0 == "DisplayName"@);
    assert(entries[1].0 == "DisplayVersion"@);
    assert(entries[3].0 == "InstallLocation"@);
    assert(entries[4].0 == "DisplayIcon"@);
    assert(entries[5].0 == "UninstallString"@);
    assert(entries[6].0 == "QuietUninstallString"@);
    assert(entries[7].0 == "NoModify"@);
    assert(entries[8].0 == "NoRepair"@);
}

/// The size that is shown is that of the program in whole kilobytes, where it is known and
/// can be counted in 32 bits; an unknown size is not shown.
pub proof fn law_shown_size_is_in_kilobytes(exe_size: Option<u64>)
    ensures
        exe_size is None ==> size_entries(exe_size).len() == 0,
        exe_size matches Some(bytes) ==> (bytes < 0x400_0000_0000 ==> {
            &&& size_entries(exe_size).len() == 1
            &&& size_entries(exe_size)[0].0 == "EstimatedSize"@
            &&& size_entries(exe_size)[0].1 matches RegistryView::Number(kb) && kb * 1024 <= bytes
                < kb * 1024 + 1024
        }),
{
}

} // verus!
