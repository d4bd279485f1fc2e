use vstd::prelude::*;

verus! {

/// Window message that carries an application command in its `lParam`.
pub const WM_APPCOMMAND: u32 = 0x0319;

/// A top-level window, by the raw value of its OS handle.
#[derive(Clone, Copy, Debug, PartialEq, Eq, Structural)]
pub struct WindowHandle {
    pub raw: isize,
}

/// The player's media commands.
#[derive(Clone, Copy, Debug, PartialEq, Eq, Structural)]
pub enum SpotifyCommand {
    Mute,
    VolumeDown,
    VolumeUp,
    Next,
    Previous,
    Stop,
    PlayPause,
}

impl SpotifyCommand {
    /// The code that the player's message protocol gives each command: the
    /// application-command number in the high word.
    pub open spec fn spec_code(self) -> u32 {
        match self {
            SpotifyCommand::Mute => 0x80000,
            SpotifyCommand::VolumeDown => 0x90000,
            SpotifyCommand::VolumeUp => 0xA0000,
            SpotifyCommand::Next => 0xB0000,
            SpotifyCommand::Previous => 0xC0000,
            SpotifyCommand::Stop => 0xD0000,
            SpotifyCommand::PlayPause => 0xE0000,
        }
    }

    pub fn code(self) -> (r: u32)
        ensures
            r == self.spec_code(),
    {
        match self {
            SpotifyCommand::Mute => 0x80000,
            SpotifyCommand::VolumeDown => 0x90000,
            SpotifyCommand::VolumeUp => 0xA0000,
            SpotifyCommand::Next => 0xB0000,
            SpotifyCommand::Previous => 0xC0000,
            SpotifyCommand::Stop => 0xD0000,
            SpotifyCommand::PlayPause => 0xE0000,
        }
    }
}

/// One message to send to a window: its target, its type and its two
/// parameters.
#[derive(Clone, Copy, Debug, PartialEq, Eq, Structural)]
pub struct AppCommandMessage {
    pub window: WindowHandle,
    pub message: u32,
    pub wparam: usize,
    pub lparam: isize,
}

/// The message that asks `window` to carry out `command`.
pub open spec fn command_message(window: WindowHandle, command: SpotifyCommand) -> AppCommandMessage {
    AppCommandMessage {
        window,
        message: WM_APPCOMMAND,
        wparam: 0,
        lparam: command.spec_code() as isize,
    }
}

/// Builds the application-command message for `command`: a zero `wParam`
/// and the command's code in `lParam`.
pub fn app_command(window: WindowHandle, command: SpotifyCommand) -> (r: AppCommandMessage)
    ensures
        r == command_message(window, command),
        r.lparam == command.spec_code() as int,
{
    let code = command.code();
    AppCommandMessage { window, message: WM_APPCOMMAND, wparam: 0, lparam: code as isize }
}

} // verus!
