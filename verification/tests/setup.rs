use drop_agent::paths::{
    first_run_marker, get_config_path, get_icon_path, get_log_path, log_is_too_long, log_line, open_logs, PathPlan,
};
use drop_agent::registry::{
    agent_version, register_in_add_remove_programs, uninstall_key, RegistryValue,
};
use drop_agent::shortcut::{
    create_desktop_shortcut, create_desktop_shortcut_force, create_startup_shortcut,
    desktop_shortcut_path, forced_shortcut_result, setup_shortcut_result, startup_shortcut_path,
    ScriptEnd, ShortcutEnd, ShortcutPaths, ShortcutStep,
};
use drop_agent::startup::{
    launch_steps, marker_contents, run_on_startup_enabled, setup_steps, uninstall_requested,
    LaunchStep, SetupStep,
};
use drop_agent::uninstall::{
    after_step, confirmation_script, run_uninstall, self_removal_args, Places, StepEnd,
    UninstallStep,
};

fn some(text: &str) -> Option<String> {
    Some(text.to_string())
}

fn windows(path: &PathPlan) -> String {
    let mut text = path.base.clone();
    for segment in &path.segments {
        text.push('\\');
        text.push_str(segment);
    }
    text
}

fn paths() -> ShortcutPaths {
    ShortcutPaths {
        shortcut: "S.lnk".to_string(),
        exe: "C:\\a\\b.exe".to_string(),
        exe_dir: "C:\\a".to_string(),
    }
}

const SCRIPT: &str = "$WshShell = New-Object -comObject WScript.Shell; $Shortcut = $WshShell.CreateShortcut('S.lnk'); $Shortcut.TargetPath = 'C:\\a\\b.exe'; $Shortcut.WorkingDirectory = 'C:\\a'; $Shortcut.Description = 'Dropmazter Desktop Agent'; $Shortcut.IconLocation = 'C:\\a\\b.exe,0'; $Shortcut.Save()";

#[test]
fn files_of_the_agent() {
    let dir = some("C:\\data");
    assert_eq!(windows(&get_log_path(&dir)), "C:\\data\\Dropmazter\\agent.log");
    assert_eq!(windows(&get_log_path(&None)), "agent.log");
    assert_eq!(windows(&get_config_path(&dir)), "C:\\data\\Dropmazter\\config.json");
    assert_eq!(windows(&get_config_path(&None)), "config.json");
    assert_eq!(windows(&first_run_marker(&dir)), "C:\\data\\Dropmazter\\.installed");
    assert_eq!(windows(&first_run_marker(&None)), ".installed");
    assert_eq!(windows(&get_icon_path(&dir)), "C:\\data\\Dropmazter\\tray.ico");
    assert_eq!(windows(&get_icon_path(&None)), ".\\tray.ico");
}

#[test]
fn log_rules() {
    assert!(!log_is_too_long(5 * 1024 * 1024));
    assert!(log_is_too_long(5 * 1024 * 1024 + 1));
    assert_eq!(log_line("2026-01-02 03:04:05", "INFO", "x"), "[2026-01-02 03:04:05] [INFO] x\n");
    assert_eq!(
        open_logs("L"),
        vec![
            "/C",
            "start",
            "powershell",
            "-NoExit",
            "-Command",
            "Get-Content 'L' -Tail 50 -Wait",
        ]
    );
}

#[test]
fn shortcut_places() {
    assert_eq!(
        windows(&desktop_shortcut_path(&some("C:\\u")).unwrap()),
        "C:\\u\\Desktop\\Dropmazter Agent.lnk"
    );
    assert_eq!(
        windows(&startup_shortcut_path(&some("C:\\r")).unwrap()),
        "C:\\r\\Microsoft\\Windows\\Start Menu\\Programs\\Startup\\Dropmazter Agent.lnk"
    );
    assert!(desktop_shortcut_path(&None).is_none());
    assert!(startup_shortcut_path(&None).is_none());
}

#[test]
fn shortcuts_are_made_once() {
    let startup = |paths: &Option<ShortcutPaths>, exists: bool| {
        create_startup_shortcut(paths, exists, true)
    };
    let desktop = |paths: &Option<ShortcutPaths>, exists: bool| {
        create_desktop_shortcut(paths, exists)
    };
    for step in vec![startup(&Some(paths()), false), desktop(&Some(paths()), false)] {
        match step {
            ShortcutStep::Run(script) => assert_eq!(script, SCRIPT),
            other => panic!("{:?}", other),
        }
    }
    assert!(matches!(startup(&Some(paths()), true), ShortcutStep::Nothing));
    assert!(matches!(desktop(&Some(paths()), true), ShortcutStep::Nothing));
    assert!(matches!(startup(&None, false), ShortcutStep::Nothing));
    assert!(matches!(desktop(&None, false), ShortcutStep::Nothing));
}

#[test]
fn startup_shortcut_is_optional() {
    let step = create_startup_shortcut(&Some(paths()), false, false);
    assert!(matches!(step, ShortcutStep::Nothing));
    for was_set_up in vec![true, false] {
        assert!(!setup_steps(was_set_up, false).contains(&SetupStep::StartupShortcut));
    }
    let args = |list: &[&str]| list.iter().map(|s| s.to_string()).collect::<Vec<String>>();
    assert!(run_on_startup_enabled(&args(&["agent", "--run-on-startup"])));
    assert!(!run_on_startup_enabled(&args(&["agent", "--run-on-startup=no"])));
    assert!(!run_on_startup_enabled(&args(&["agent"])));
}

#[test]
fn shortcut_on_request() {
    match create_desktop_shortcut_force(&Some(paths())) {
        ShortcutStep::Run(script) => assert_eq!(script, SCRIPT),
        other => panic!("{:?}", other),
    }
    match create_desktop_shortcut_force(&None) {
        ShortcutStep::Fail(reason) => assert_eq!(reason, "Could not find Desktop folder"),
        other => panic!("{:?}", other),
    }
    assert_eq!(forced_shortcut_result(&ScriptEnd::Succeeded), Ok(()));
    assert_eq!(
        forced_shortcut_result(&ScriptEnd::Failed("no".to_string())),
        Err("PowerShell failed: no".to_string())
    );
    assert_eq!(
        forced_shortcut_result(&ScriptEnd::NotStarted("gone".to_string())),
        Err("PowerShell error: gone".to_string())
    );
}

#[test]
fn entry_among_the_programs() {
    let text = |s: &str| RegistryValue::Text(s.to_string());
    let show = |value: &RegistryValue| match value {
        RegistryValue::Text(t) => format!("'{}'", t),
        RegistryValue::Number(n) => format!("{}", n),
    };
    let expected = vec![
        ("DisplayName", text("Dropmazter Agent")),
        ("DisplayVersion", text("2.3.0")),
        ("Publisher", text("Dropmazter")),
        ("InstallLocation", text("D")),
        ("DisplayIcon", text("X,0")),
        ("UninstallString", text("\"X\" --uninstall")),
        ("QuietUninstallString", text("\"X\" --uninstall --quiet")),
        ("NoModify", RegistryValue::Number(1)),
        ("NoRepair", RegistryValue::Number(1)),
        ("EstimatedSize", RegistryValue::Number(4)),
        ("URLInfoAbout", text("https://dropmazter.com")),
        ("HelpLink", text("https://dropmazter.com")),
    ];
    let entries = register_in_add_remove_programs("X", "D", Some(4 * 1024 + 1023));
    assert_eq!(entries.len(), expected.len());
    for (entry, (name, value)) in entries.iter().zip(expected.iter()) {
        assert_eq!(&entry.name, name);
        assert_eq!(show(&entry.value), show(value));
    }
    assert_eq!(register_in_add_remove_programs("X", "D", None).len(), 11);
    let huge = register_in_add_remove_programs("X", "D", Some((1 << 42) + 2048));
    assert_eq!(show(&huge[9].value), "2");
    assert_eq!(agent_version(), "2.3.0");
    assert_eq!(
        uninstall_key(),
        "Software\\Microsoft\\Windows\\CurrentVersion\\Uninstall\\DropmazterAgent"
    );
}

#[test]
fn arguments_are_read() {
    let args = |list: &[&str]| list.iter().map(|s| s.to_string()).collect::<Vec<String>>();
    assert_eq!(uninstall_requested(&args(&["agent"])), None);
    assert_eq!(uninstall_requested(&args(&["agent", "--quiet"])), None);
    assert_eq!(uninstall_requested(&args(&["agent", "--uninstall"])), Some(false));
    assert_eq!(uninstall_requested(&args(&["agent", "--uninstall", "--quiet"])), Some(true));
    assert_eq!(uninstall_requested(&args(&["agent", "--quiet", "--uninstall"])), Some(true));
    assert_eq!(uninstall_requested(&args(&["agent", "--uninstall=1"])), None);
    assert_eq!(uninstall_requested(&args(&[])), None);
}

#[test]
fn first_run_sets_up_more() {
    assert_eq!(
        setup_steps(false, true),
        vec![
            SetupStep::DesktopShortcut,
            SetupStep::StartupShortcut,
            SetupStep::Register,
            SetupStep::WriteMarker,
        ]
    );
    assert_eq!(
        setup_steps(false, false),
        vec![SetupStep::DesktopShortcut, SetupStep::Register, SetupStep::WriteMarker]
    );
    assert_eq!(setup_steps(true, true), vec![SetupStep::Register]);
    assert_eq!(setup_steps(true, false), vec![SetupStep::Register]);
    assert_eq!(marker_contents(), "1");
}

#[test]
fn launch_of_the_agent() {
    let plan = launch_steps(true, false);
    assert_eq!(plan.len(), 10);
    assert_eq!(
        plan[..3].to_vec(),
        vec![LaunchStep::SetUp, LaunchStep::CheckForUpdate, LaunchStep::RepeatUpdateChecks]
    );
    assert_eq!(launch_steps(true, true), plan[3..].to_vec());
    assert_eq!(plan[9], LaunchStep::RunEventLoop);
    assert!(launch_steps(false, false).is_empty());
    assert!(launch_steps(false, true).is_empty());
}

fn places() -> Places {
    Places { userprofile: some("C:\\u"), appdata: some("C:\\r"), local_app_data: some("C:\\l") }
}

fn describe(step: &UninstallStep) -> String {
    match step {
        UninstallStep::RemoveFile(path) => format!("file {}", windows(path)),
        UninstallStep::RemoveKey(key) => format!("key {}", key),
        UninstallStep::RemoveFolder(path) => format!("folder {}", windows(path)),
        UninstallStep::Show(script) => format!("show {}", script),
        UninstallStep::RemoveSelf => "self".to_string(),
    }
}

#[test]
fn removal_undoes_the_setup() {
    let steps: Vec<String> =
        run_uninstall(false, " Yes\r\n", &places()).iter().map(describe).collect();
    let expected = vec![
        format!("file {}", windows(&desktop_shortcut_path(&some("C:\\u")).unwrap())),
        format!("file {}", windows(&startup_shortcut_path(&some("C:\\r")).unwrap())),
        format!("key {}", uninstall_key()),
        "folder C:\\l\\Dropmazter".to_string(),
        "show Add-Type -AssemblyName PresentationFramework; [System.Windows.MessageBox]::Show('Dropmazter Agent has been uninstalled.','Uninstall Complete','OK','Information')".to_string(),
        "self".to_string(),
    ];
    assert_eq!(steps, expected);
    let quiet: Vec<String> = run_uninstall(true, "", &places()).iter().map(describe).collect();
    assert_eq!(quiet[..4].to_vec(), expected[..4].to_vec());
    assert_eq!(quiet[4..].to_vec(), vec!["self"]);
}

#[test]
fn removal_needs_consent() {
    for answer in vec!["No", "", "yes", "YES", "Yes!", "Y es"] {
        assert!(run_uninstall(false, answer, &places()).is_empty());
    }
    assert_eq!(
        confirmation_script(false).unwrap(),
        "Add-Type -AssemblyName PresentationFramework; [System.Windows.MessageBox]::Show('Are you sure you want to uninstall Dropmazter Agent?','Uninstall Dropmazter Agent','YesNo','Question')"
    );
    assert!(confirmation_script(true).is_none());
}

#[test]
fn removal_without_places() {
    let nowhere = Places { userprofile: None, appdata: None, local_app_data: None };
    let steps: Vec<String> = run_uninstall(true, "", &nowhere).iter().map(describe).collect();
    assert_eq!(steps, vec![format!("key {}", uninstall_key()), "self".to_string()]);
    assert_eq!(
        self_removal_args("E"),
        vec!["/C", "timeout", "/t", "2", "/nobreak", ">nul", "&", "del", "/f", "/q", "E"]
    );
}

#[test]
fn failed_script_does_not_stop_the_setup() {
    assert_eq!(setup_shortcut_result(ShortcutEnd::NothingToDo), Ok(()));
    for end in vec![
        ScriptEnd::Succeeded,
        ScriptEnd::Failed("no".to_string()),
        ScriptEnd::NotStarted("gone".to_string()),
    ] {
        assert_eq!(setup_shortcut_result(ShortcutEnd::Ran(end)), Ok(()));
    }
    assert_eq!(
        setup_shortcut_result(ShortcutEnd::ExeUnknown("lost".to_string())),
        Err("lost".to_string())
    );
}

#[test]
fn failed_steps_do_not_stop_the_removal() {
    let steps = run_uninstall(false, "Yes", &places());
    let last = steps.len() - 1;
    for (i, step) in steps.iter().enumerate() {
        assert_eq!(after_step(step, StepEnd::Done), Ok(()));
        assert_eq!(after_step(step, StepEnd::Failed), Ok(()));
        let lost = after_step(step, StepEnd::ExeUnknown("lost".to_string()));
        assert_eq!(lost, if i == last { Err("lost".to_string()) } else { Ok(()) });
    }
}
