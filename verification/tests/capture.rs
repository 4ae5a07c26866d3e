use drop_agent::capture::{
    capture_fortnite_window, captured, start_capture, Attempt, CaptureAction, CaptureReply,
    CaptureSession, Held, Region, Screenshot, PW_RENDERFULLCONTENT, reading_region,
};
use drop_agent::window::Rect;

/// A graphics system that answers as it was told to.
struct Desk {
    valid: bool,
    visible: bool,
    rect: Option<Rect>,
    window_dc: bool,
    screen_dc: bool,
    memory_dcs: u32,
    bitmaps: u32,
    print_full: bool,
    print_plain: bool,
    copies: u32,
    reads: u32,
    window_pixels: u8,
    screen_pixels: u8,
    log: Vec<CaptureAction>,
}

const REGION: Region = Region { x: 1, y: 1, width: 2, height: 1 };

fn desk() -> Desk {
    Desk {
        valid: true,
        visible: true,
        rect: Some(Rect { left: 100, top: 200, right: 103, bottom: 202 }),
        window_dc: true,
        screen_dc: true,
        memory_dcs: 2,
        bitmaps: 2,
        print_full: true,
        print_plain: true,
        copies: 2,
        reads: 2,
        window_pixels: 9,
        screen_pixels: 5,
        log: vec![],
    }
}

fn yes(b: bool) -> CaptureReply {
    if b { CaptureReply::Yes } else { CaptureReply::No }
}

fn take(n: &mut u32) -> CaptureReply {
    if *n > 0 {
        *n -= 1;
        CaptureReply::Yes
    } else {
        CaptureReply::No
    }
}

fn answer(desk: &mut Desk, session: &CaptureSession, action: CaptureAction) -> CaptureReply {
    match action {
        CaptureAction::CheckWindow => yes(desk.valid),
        CaptureAction::CheckVisible => yes(desk.visible),
        CaptureAction::QueryRect => match desk.rect {
            Some(rect) => CaptureReply::At(rect),
            None => CaptureReply::No,
        },
        CaptureAction::GetWindowDc => yes(desk.window_dc),
        CaptureAction::GetScreenDc => yes(desk.screen_dc),
        CaptureAction::CreateMemoryDc { .. } => take(&mut desk.memory_dcs),
        CaptureAction::CreateBitmap { .. } => take(&mut desk.bitmaps),
        CaptureAction::PrintWindow { flags } => {
            yes(if flags == 0 { desk.print_plain } else { desk.print_full })
        }
        CaptureAction::CopyScreen { .. } => take(&mut desk.copies),
        CaptureAction::ReadPixels { width, height } => {
            if desk.reads == 0 {
                return CaptureReply::No;
            }
            desk.reads -= 1;
            let value = match session.state.attempt {
                Attempt::Window => desk.window_pixels,
                Attempt::Screen => desk.screen_pixels,
            };
            // The pixels outside the region have a colour of their own.
            let mut pixels = vec![77; (4 * width * height) as usize];
            for y in 0..height {
                for x in 0..width {
                    let inside = x >= 1 && x < 3 && y == 1;
                    if inside {
                        let at = (4 * (y * width + x)) as usize;
                        pixels[at..at + 4].copy_from_slice(&[value.saturating_sub(1), value, value, value]);
                    }
                }
            }
            CaptureReply::Pixels(pixels)
        }
        _ => CaptureReply::No,
    }
}

fn run(desk: &mut Desk) -> Option<Screenshot> {
    run_region(desk, REGION)
}

fn run_region(desk: &mut Desk, region: Region) -> Option<Screenshot> {
    let (mut session, mut action) = start_capture(region);
    while action != CaptureAction::Done {
        desk.log.push(action);
        assert!(desk.log.len() <= 40);
        let reply = answer(desk, &session, action);
        action = capture_fortnite_window(&mut session, reply);
    }
    let nothing = Held {
        window_dc: false, screen_dc: false, memory_dc: false, bitmap: false, selected: false,
    };
    assert_eq!(session.state.held, nothing);
    captured(session)
}

#[test]
fn window_is_printed() {
    let mut d = desk();
    let shot = run(&mut d).unwrap();
    assert_eq!((shot.width, shot.height), (2, 1));
    // Blue and red have changed places.
    assert_eq!(shot.rgba, vec![9, 9, 8, 9, 9, 9, 8, 9]);
    assert_eq!(
        d.log,
        vec![
            CaptureAction::CheckWindow,
            CaptureAction::CheckVisible,
            CaptureAction::QueryRect,
            CaptureAction::GetWindowDc,
            CaptureAction::CreateMemoryDc { attempt: Attempt::Window },
            CaptureAction::CreateBitmap { attempt: Attempt::Window, width: 3, height: 2 },
            CaptureAction::SelectBitmap,
            CaptureAction::PrintWindow { flags: PW_RENDERFULLCONTENT },
            CaptureAction::ReadPixels { width: 3, height: 2 },
            CaptureAction::RestoreSelection,
            CaptureAction::DeleteBitmap,
            CaptureAction::DeleteMemoryDc,
            CaptureAction::ReleaseWindowDc,
        ]
    );
    assert_eq!(PW_RENDERFULLCONTENT, 2);
}

#[test]
fn screen_is_copied_where_printing_fails() {
    let mut d = desk();
    d.print_full = false;
    d.print_plain = false;
    assert!(run(&mut d).is_some());
    assert_eq!(
        d.log[7..].to_vec(),
        vec![
            CaptureAction::PrintWindow { flags: 2 },
            CaptureAction::PrintWindow { flags: 0 },
            CaptureAction::GetScreenDc,
            CaptureAction::CopyScreen {
                to_x: 1, to_y: 1, x: 101, y: 201, width: 2, height: 1,
            },
            CaptureAction::ReleaseScreenDc,
            CaptureAction::ReadPixels { width: 3, height: 2 },
            CaptureAction::RestoreSelection,
            CaptureAction::DeleteBitmap,
            CaptureAction::DeleteMemoryDc,
            CaptureAction::ReleaseWindowDc,
        ]
    );
}

#[test]
fn plain_printing_is_tried_second() {
    let mut d = desk();
    d.print_full = false;
    assert!(run(&mut d).is_some());
    assert!(!d.log.contains(&CaptureAction::GetScreenDc));
}

#[test]
fn black_picture_leads_to_the_screen() {
    let mut d = desk();
    d.window_pixels = 0;
    let shot = run(&mut d).unwrap();
    assert_eq!(shot.rgba, vec![5, 5, 4, 5, 5, 5, 4, 5]);
    assert_eq!(
        d.log[13..].to_vec(),
        vec![
            CaptureAction::GetScreenDc,
            CaptureAction::CreateMemoryDc { attempt: Attempt::Screen },
            CaptureAction::CreateBitmap { attempt: Attempt::Screen, width: 3, height: 2 },
            CaptureAction::SelectBitmap,
            CaptureAction::CopyScreen {
                to_x: 1, to_y: 1, x: 101, y: 201, width: 2, height: 1,
            },
            CaptureAction::ReadPixels { width: 3, height: 2 },
            CaptureAction::RestoreSelection,
            CaptureAction::DeleteBitmap,
            CaptureAction::DeleteMemoryDc,
            CaptureAction::ReleaseScreenDc,
        ]
    );
}

#[test]
fn black_screen_is_kept() {
    let mut d = desk();
    d.window_pixels = 0;
    d.screen_pixels = 0;
    let shot = run(&mut d).unwrap();
    assert!(shot.rgba.iter().all(|b| *b == 0));
}

#[test]
fn every_failure_gives_everything_back() {
    let mut cases: Vec<Desk> = vec![];
    cases.push(Desk { valid: false, ..desk() });
    cases.push(Desk { visible: false, ..desk() });
    cases.push(Desk { rect: None, ..desk() });
    cases.push(Desk { window_dc: false, ..desk() });
    cases.push(Desk { memory_dcs: 0, ..desk() });
    cases.push(Desk { bitmaps: 0, ..desk() });
    cases.push(Desk { reads: 0, ..desk() });
    cases.push(Desk { print_full: false, print_plain: false, screen_dc: false, ..desk() });
    cases.push(Desk { print_full: false, print_plain: false, copies: 0, ..desk() });
    cases.push(Desk { window_pixels: 0, screen_dc: false, ..desk() });
    cases.push(Desk { window_pixels: 0, memory_dcs: 1, ..desk() });
    cases.push(Desk { window_pixels: 0, bitmaps: 1, ..desk() });
    cases.push(Desk { window_pixels: 0, copies: 0, ..desk() });
    cases.push(Desk { window_pixels: 0, reads: 1, ..desk() });
    for mut d in cases {
        assert!(run(&mut d).is_none());
    }
}

#[test]
fn window_without_area_is_not_captured() {
    let mut flat = desk();
    flat.rect = Some(Rect { left: 5, top: 5, right: 5, bottom: 9 });
    assert!(run(&mut flat).is_none());
    assert_eq!(flat.log.len(), 3);
    let mut turned = desk();
    turned.rect = Some(Rect { left: 9, top: 5, right: 5, bottom: 9 });
    assert!(run(&mut turned).is_none());
    assert_eq!(turned.log.len(), 3);
}

#[test]
fn failed_memory_context_returns_the_window_context() {
    let mut d = desk();
    d.memory_dcs = 0;
    assert!(run(&mut d).is_none());
    assert_eq!(
        d.log[4..].to_vec(),
        vec![
            CaptureAction::CreateMemoryDc { attempt: Attempt::Window },
            CaptureAction::ReleaseWindowDc,
        ]
    );
}

#[test]
fn finished_capture_stays_finished() {
    let (mut session, _) = start_capture(REGION);
    assert_eq!(capture_fortnite_window(&mut session, CaptureReply::No), CaptureAction::Done);
    assert_eq!(capture_fortnite_window(&mut session, CaptureReply::Yes), CaptureAction::Done);
    assert!(captured(session).is_none());
}

#[test]
fn region_must_lie_within_the_window() {
    let outside = vec![
        Region { x: 0, y: 0, width: 3, height: 2 },
        Region { x: 2, y: 0, width: 2, height: 1 },
        Region { x: 0, y: 2, width: 1, height: 1 },
        Region { x: -1, y: 0, width: 1, height: 1 },
        Region { x: 0, y: -1, width: 1, height: 1 },
        Region { x: 0, y: 0, width: 0, height: 1 },
        Region { x: 0, y: 0, width: 1, height: 0 },
        Region { x: i32::MAX, y: 0, width: i32::MAX, height: 1 },
    ];
    for region in outside {
        let mut d = desk();
        assert!(run_region(&mut d, region).is_none());
        assert_eq!(d.log.len(), 3);
    }
    let mut d = desk();
    let shot = run_region(&mut d, Region { x: 0, y: 0, width: 3, height: 1 }).unwrap();
    assert_eq!((shot.width, shot.height), (3, 1));
    assert_eq!(shot.rgba, vec![77; 12]);
}

#[test]
fn pixels_of_the_wrong_number_are_refused() {
    let (mut session, mut action) = start_capture(REGION);
    let mut d = desk();
    while !matches!(action, CaptureAction::ReadPixels { .. }) {
        let reply = answer(&mut d, &session, action);
        action = capture_fortnite_window(&mut session, reply);
    }
    action = capture_fortnite_window(&mut session, CaptureReply::Pixels(vec![1; 8]));
    while action != CaptureAction::Done {
        action = capture_fortnite_window(&mut session, CaptureReply::No);
    }
    assert!(captured(session).is_none());
}

#[test]
fn region_of_a_game_window() {
    assert_eq!(
        reading_region(1920, 1080),
        Region { x: 480, y: 270, width: 960, height: 540 }
    );
    assert_eq!(reading_region(641, 481), Region { x: 160, y: 120, width: 320, height: 240 });
}
