use spotify_keys::command::WindowHandle;
use spotify_keys::hooks::{MediaHooks, StartupError};
use spotify_keys::locator::{image_names_target, Locator, ProbeAction, ProbeEvent};

enum Process {
    Protected,
    NoPath,
    Image(&'static str),
}

struct Outcome {
    found: Option<WindowHandle>,
    visited: usize,
    opens: usize,
    closes: usize,
}

fn enumerate(windows: &[(isize, Process)]) -> Outcome {
    let mut locator = Locator::new();
    let mut out = Outcome { found: None, visited: 0, opens: 0, closes: 0 };
    for (raw, process) in windows {
        out.visited += 1;
        let handle = WindowHandle { raw: *raw };
        let mut action = locator.step(ProbeEvent::Window { handle }).unwrap();
        loop {
            action = match action {
                ProbeAction::OpenProcess { window } => {
                    assert_eq!(window, handle);
                    match process {
                        Process::Protected => locator.step(ProbeEvent::OpenFailed),
                        _ => {
                            out.opens += 1;
                            locator.step(ProbeEvent::Opened)
                        }
                    }
                    .unwrap()
                }
                ProbeAction::ReadImagePath => {
                    let path = match process {
                        Process::Image(p) => p.as_bytes().to_vec(),
                        _ => Vec::new(),
                    };
                    locator.step(ProbeEvent::ImagePath { path }).unwrap()
                }
                ProbeAction::CloseProcess => {
                    out.closes += 1;
                    locator.step(ProbeEvent::Closed).unwrap()
                }
                ProbeAction::NextWindow | ProbeAction::StopEnumeration { .. } => break,
            };
        }
        assert!(!locator.holds_process());
        if let ProbeAction::StopEnumeration { window } = action {
            assert_eq!(window, handle);
            break;
        }
    }
    out.found = locator.target();
    out
}

const PLAYER: &str = "\\Device\\HarddiskVolume3\\Users\\me\\AppData\\Roaming\\Spotify\\Spotify.exe";

#[test]
fn finds_the_single_player_window_and_stops() {
    let windows = [
        (1, Process::Image("\\Device\\HarddiskVolume3\\Windows\\explorer.exe")),
        (2, Process::Protected),
        (3, Process::Image(PLAYER)),
        (4, Process::Image("\\Device\\HarddiskVolume3\\Windows\\notepad.exe")),
        (5, Process::Image(PLAYER)),
    ];
    let out = enumerate(&windows);
    assert_eq!(out.found, Some(WindowHandle { raw: 3 }));
    assert_eq!(out.visited, 3);
}

#[test]
fn no_player_window_is_not_found() {
    let windows = [
        (1, Process::Image("\\Device\\HarddiskVolume3\\Windows\\explorer.exe")),
        (2, Process::Protected),
        (3, Process::NoPath),
        (4, Process::Image("\\Device\\HarddiskVolume3\\Apps\\spotify.exe")),
    ];
    let out = enumerate(&windows);
    assert_eq!(out.found, None);
    assert_eq!(out.visited, 4);
    assert_eq!(MediaHooks::from_search(out.found), Err(StartupError::TargetNotFound));
}

#[test]
fn empty_window_list_is_not_found() {
    let out = enumerate(&[]);
    assert_eq!(out.found, None);
    assert_eq!(out.visited, 0);
}

#[test]
fn every_opened_process_is_released() {
    let windows = [
        (1, Process::Protected),
        (2, Process::NoPath),
        (3, Process::Image("\\Device\\HarddiskVolume3\\Windows\\explorer.exe")),
        (4, Process::Protected),
        (5, Process::NoPath),
        (6, Process::Image(PLAYER)),
    ];
    let out = enumerate(&windows);
    assert_eq!(out.opens, 4);
    assert_eq!(out.closes, 4);
    assert_eq!(out.found, Some(WindowHandle { raw: 6 }));
}

#[test]
fn search_ignores_reports_out_of_turn() {
    let mut locator = Locator::new();
    assert_eq!(locator.step(ProbeEvent::Opened), None);
    assert_eq!(locator.step(ProbeEvent::Closed), None);
    let handle = WindowHandle { raw: 11 };
    assert_eq!(
        locator.step(ProbeEvent::Window { handle }),
        Some(ProbeAction::OpenProcess { window: handle })
    );
    assert_eq!(locator.step(ProbeEvent::Closed), None);
    assert_eq!(locator.step(ProbeEvent::Opened), Some(ProbeAction::ReadImagePath));
    assert!(locator.holds_process());
    let path = PLAYER.as_bytes().to_vec();
    assert_eq!(locator.step(ProbeEvent::ImagePath { path }), Some(ProbeAction::CloseProcess));
    assert!(locator.holds_process());
    assert_eq!(locator.step(ProbeEvent::Closed), Some(ProbeAction::StopEnumeration { window: handle }));
    assert!(!locator.holds_process());
    assert_eq!(locator.step(ProbeEvent::Window { handle: WindowHandle { raw: 12 } }), None);
    assert_eq!(locator.target(), Some(handle));
}

#[test]
fn image_name_suffix_is_exact_and_case_sensitive() {
    assert!(image_names_target(b"Spotify.exe"));
    assert!(image_names_target(PLAYER.as_bytes()));
    assert!(image_names_target(b"C:\\NotSpotify.exe"));
    assert!(!image_names_target(b""));
    assert!(!image_names_target(b"potify.exe"));
    assert!(!image_names_target(b"C:\\spotify.exe"));
    assert!(!image_names_target(b"C:\\SPOTIFY.EXE"));
    assert!(!image_names_target(b"C:\\Spotify.exe.bak"));
    assert!(!image_names_target(b"C:\\Spotify.ex"));
}
