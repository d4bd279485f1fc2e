use spotify_keys::command::{app_command, SpotifyCommand, WindowHandle, WM_APPCOMMAND};

#[test]
fn command_codes_match_player_protocol() {
    assert_eq!(SpotifyCommand::Mute.code(), 0x80000);
    assert_eq!(SpotifyCommand::VolumeDown.code(), 0x90000);
    assert_eq!(SpotifyCommand::VolumeUp.code(), 0xA0000);
    assert_eq!(SpotifyCommand::Next.code(), 0xB0000);
    assert_eq!(SpotifyCommand::Previous.code(), 0xC0000);
    assert_eq!(SpotifyCommand::Stop.code(), 0xD0000);
    assert_eq!(SpotifyCommand::PlayPause.code(), 0xE0000);
}

#[test]
fn app_command_packs_code_into_lparam() {
    let window = WindowHandle { raw: 0x1234 };
    let m = app_command(window, SpotifyCommand::PlayPause);
    assert_eq!(m.window, window);
    assert_eq!(m.message, WM_APPCOMMAND);
    assert_eq!(m.message, 0x0319);
    assert_eq!(m.wparam, 0);
    assert_eq!(m.lparam, 0xE0000);
}

#[test]
fn app_command_next_track() {
    let m = app_command(WindowHandle { raw: 7 }, SpotifyCommand::Next);
    assert_eq!(m.lparam, 0xB0000);
    assert_eq!(m.window.raw, 7);
}
