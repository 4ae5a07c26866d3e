use drop_agent::link::Cmd;
use drop_agent::presence::{
    discord_client_id, run_discord_presence, PresenceAction, PresenceEvent, PresencePhase,
};
use drop_agent::tray::{
    can_have_icon_size, choose_item, chosen_item, enable_dark_mode_menus, handle_ui_event,
    icon_of, icon_pixels, icon_size, menu_entries, tooltip, DarkModeAction, DarkModeEvent, MenuAction,
    MenuChoice, MenuEntry, UiAction, UiEvent,
};
use drop_agent::update::{
    check_for_update, spawn_update_loop, UpdateAction, UpdateEvent, UpdateLoopAction,
    UpdateLoopEvent,
};

#[test]
fn lines_of_the_menu() {
    let lines: Vec<String> = menu_entries()
        .iter()
        .map(|entry| match entry {
            MenuEntry::Item { label, .. } => label.clone(),
            MenuEntry::Separator => "-".to_string(),
        })
        .collect();
    assert_eq!(
        lines,
        vec![
            "Capture Fortnite",
            "Check Fortnite Status",
            "-",
            "Create Desktop Shortcut",
            "EULA",
            "Open Logs",
            "-",
            "Force Reconnect",
            "Restart Agent",
            "-",
            "Quit",
        ]
    );
}

#[test]
fn items_and_what_they_do() {
    let table = vec![
        (MenuChoice::Capture, UiEvent::CaptureFortnite, UiAction::Send(Cmd::CaptureFortnite)),
        (MenuChoice::Check, UiEvent::CheckFortnite, UiAction::Send(Cmd::CheckFortnite)),
        (MenuChoice::Shortcut, UiEvent::CreateShortcut, UiAction::CreateShortcut),
        (MenuChoice::Logs, UiEvent::OpenLogs, UiAction::OpenLogs),
        (MenuChoice::Reconnect, UiEvent::Reconnect, UiAction::Send(Cmd::ForceReconnect)),
        (MenuChoice::Restart, UiEvent::RestartApp, UiAction::Restart),
        (MenuChoice::Quit, UiEvent::Quit, UiAction::Quit),
    ];
    for (choice, event, action) in table {
        match choose_item(choice) {
            MenuAction::Ask(asked) => assert_eq!(asked, event),
            other => panic!("{:?}", other),
        }
        assert_eq!(handle_ui_event(event), action);
    }
    match choose_item(MenuChoice::Eula) {
        MenuAction::Run(args) => {
            assert_eq!(args, vec!["/C", "start", "https://dropmazter.com/eula/"]);
        }
        other => panic!("{:?}", other),
    }
}

#[test]
fn items_by_their_identifiers() {
    let mut items: Vec<(String, MenuChoice)> = vec![];
    for entry in menu_entries() {
        if let MenuEntry::Item { choice, .. } = entry {
            items.push((format!("id{}", items.len()), choice));
        }
    }
    assert_eq!(items.len(), 8);
    assert_eq!(chosen_item(&items, "id0"), Some(MenuChoice::Capture));
    assert_eq!(chosen_item(&items, "id3"), Some(MenuChoice::Eula));
    assert_eq!(chosen_item(&items, "id7"), Some(MenuChoice::Quit));
    assert_eq!(chosen_item(&items, "id8"), None);
    items.push(("id0".to_string(), MenuChoice::Quit));
    assert_eq!(chosen_item(&items, "id0"), Some(MenuChoice::Capture));
}

#[test]
fn sizes_of_the_icon() {
    assert_eq!(icon_size(16), 16);
    assert_eq!(icon_size(0), 32);
    assert_eq!(icon_size(-1), u32::MAX);
    assert!(can_have_icon_size(16));
    assert!(can_have_icon_size(32));
    assert!(!can_have_icon_size(0));
    assert!(!can_have_icon_size(icon_size(-1)));
    assert_eq!(tooltip(), "Dropmazter Agent v2.3.0");
}

#[test]
fn icon_is_brought_to_its_size() {
    let mut picture = image::RgbaImage::new(4, 4);
    for (_, _, pixel) in picture.enumerate_pixels_mut() {
        *pixel = image::Rgba([10, 200, 30, 255]);
    }
    let mut file = std::io::Cursor::new(Vec::new());
    image::DynamicImage::ImageRgba8(picture)
        .write_to(&mut file, image::ImageFormat::Png)
        .unwrap();
    let file = file.into_inner();
    for size in vec![1u32, 4, 16, 33] {
        let icon = icon_pixels(&file, size).unwrap();
        assert_eq!((icon.width, icon.height), (size, size));
        assert_eq!(icon.rgba.len(), (4 * size * size) as usize);
        for pixel in icon.rgba.chunks(4) {
            for (got, meant) in pixel.iter().zip([10i32, 200, 30, 255]) {
                assert!((*got as i32 - meant).abs() <= 1);
            }
        }
    }
    let icon = icon_of(vec![1, 2, 3, 4], 1);
    assert_eq!((icon.rgba, icon.width, icon.height), (vec![1, 2, 3, 4], 1, 1));
    assert!(icon_pixels(&vec![1, 2, 3], 16).is_none());
    assert!(icon_pixels(&vec![], 16).is_none());
}

#[test]
fn dark_menus() {
    match enable_dark_mode_menus(DarkModeEvent::Started) {
        DarkModeAction::Load(name) => assert_eq!(name, "uxtheme.dll"),
        other => panic!("{:?}", other),
    }
    assert!(matches!(
        enable_dark_mode_menus(DarkModeEvent::Loaded { found: true }),
        DarkModeAction::Resolve { ordinal: 135 }
    ));
    assert!(matches!(
        enable_dark_mode_menus(DarkModeEvent::Resolved { found: true }),
        DarkModeAction::Call { mode: 1 }
    ));
    for event in vec![
        DarkModeEvent::Loaded { found: false },
        DarkModeEvent::Resolved { found: false },
        DarkModeEvent::Called,
    ] {
        assert!(matches!(enable_dark_mode_menus(event), DarkModeAction::Stop));
    }
}

#[test]
fn look_for_an_update() {
    match check_for_update(UpdateEvent::Started) {
        UpdateAction::Configure(source) => {
            assert_eq!(source.repo_owner, "313Wentzy");
            assert_eq!(source.repo_name, "drop-agent");
            assert_eq!(source.bin_name, "Dropmazter-agent");
            assert_eq!(source.target, "");
            assert!(source.no_confirm);
            assert!(source.show_download_progress);
            assert_eq!(source.current_version, "2.3.0");
        }
        other => panic!("{:?}", other),
    }
    let next = |event| check_for_update(event);
    assert!(matches!(next(UpdateEvent::Configured { ready: true }), UpdateAction::Update));
    assert!(matches!(next(UpdateEvent::Configured { ready: false }), UpdateAction::GoOn));
    assert!(matches!(next(UpdateEvent::UpToDate), UpdateAction::GoOn));
    assert!(matches!(next(UpdateEvent::Failed), UpdateAction::GoOn));
    assert!(matches!(next(UpdateEvent::Updated), UpdateAction::Relaunch));
    assert!(matches!(next(UpdateEvent::Relaunched { started: true }), UpdateAction::Exit));
    assert!(matches!(next(UpdateEvent::Relaunched { started: false }), UpdateAction::Exit));
}

#[test]
fn updates_once_a_day() {
    let day = UpdateLoopAction::Wait { seconds: 24 * 60 * 60 };
    assert_eq!(spawn_update_loop(UpdateLoopEvent::Started), day);
    assert_eq!(spawn_update_loop(UpdateLoopEvent::Waited), UpdateLoopAction::Check);
    assert_eq!(spawn_update_loop(UpdateLoopEvent::Checked), day);
}

#[test]
fn session_on_discord() {
    let mut phase = PresencePhase::Offline;
    let connect = run_discord_presence(&mut phase, PresenceEvent::Ready);
    assert!(matches!(connect, PresenceAction::Connect));
    let retry = run_discord_presence(&mut phase, PresenceEvent::NotAvailable);
    assert!(matches!(retry, PresenceAction::Disconnect { seconds: 30 }));
    let first = run_discord_presence(&mut phase, PresenceEvent::Connected { now_secs: 500 });
    match first {
        PresenceAction::Show(card) => {
            assert_eq!(card.details, "Never get outdropped again!");
            assert_eq!(card.state, "dropmazter.com");
            assert_eq!(card.large_image, "logo");
            assert_eq!(card.large_text, "Dropmazter - Drop Smarter. Land Faster.");
            assert_eq!(card.start_secs, 500);
            assert_eq!(card.buttons[0].label, "Try Drop Calculator");
            assert_eq!(card.buttons[0].url, "https://dropmazter.com/");
            assert_eq!(card.buttons[1].label, "Shop Dropmaps");
            assert_eq!(card.buttons[1].url, "https://dropmazter.com/map");
        }
        other => panic!("{:?}", other),
    }
    for _ in 0..3 {
        let wait = run_discord_presence(&mut phase, PresenceEvent::Shown);
        assert!(matches!(wait, PresenceAction::Wait { seconds: 15 }));
        match run_discord_presence(&mut phase, PresenceEvent::Ready) {
            PresenceAction::Show(card) => assert_eq!(card.start_secs, 500),
            other => panic!("{:?}", other),
        }
    }
    let lost = run_discord_presence(&mut phase, PresenceEvent::Lost);
    assert!(matches!(lost, PresenceAction::Disconnect { seconds: 30 }));
    let connect = run_discord_presence(&mut phase, PresenceEvent::Ready);
    assert!(matches!(connect, PresenceAction::Connect));
    assert_eq!(discord_client_id(), "1244587407320551447");
}
