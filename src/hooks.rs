use vstd::prelude::*;

use crate::command::{app_command, command_message, AppCommandMessage, SpotifyCommand, WindowHandle};

verus! {

/// Mouse message for an extra (side) button going down.
pub const WM_XBUTTONDOWN: usize = 0x020B;

/// Keyboard message for a key going down.
pub const WM_KEYDOWN: usize = 0x0100;

/// Virtual key code of NumLock.
pub const VK_NUMLOCK: u32 = 0x90;

/// Virtual key code of Pause.
pub const VK_PAUSE: u32 = 0x13;

/// A low-level mouse event: the message that the hook received and the
/// event's `mouseData`, whose high word names an extra button.
#[derive(Clone, Copy, Debug, PartialEq, Eq, Structural)]
pub struct MouseEvent {
    pub message: usize,
    pub mouse_data: u32,
}

/// A low-level keyboard event: the message that the hook received and the
/// virtual key code of the event.
#[derive(Clone, Copy, Debug, PartialEq, Eq, Structural)]
pub struct KeyEvent {
    pub message: usize,
    pub vk_code: u32,
}

/// What a hook does with one event: the message to send, if any, and the
/// event that it hands on to the next hook in the chain.
#[derive(Debug, PartialEq, Eq, Structural)]
pub struct HookReply<E> {
    pub send: Option<AppCommandMessage>,
    pub forward: E,
}

/// The command that a mouse event triggers: the first extra button going
/// down plays or pauses.
pub open spec fn mouse_trigger(e: MouseEvent) -> Option<SpotifyCommand> {
    if e.message == WM_XBUTTONDOWN && (e.mouse_data >> 16u32) == 1 {
        Some(SpotifyCommand::PlayPause)
    } else {
        None
    }
}

/// The virtual key of a keyboard event, as the 16-bit value that key codes are.
pub open spec fn virtual_key(e: KeyEvent) -> u32 {
    e.vk_code & 0xFFFFu32
}

/// The command that a keyboard event triggers: on a key going down, NumLock
/// skips to the next track and Pause plays or pauses.
pub open spec fn key_trigger(e: KeyEvent) -> Option<SpotifyCommand> {
    if e.message != WM_KEYDOWN {
        None
    } else if virtual_key(e) == VK_NUMLOCK {
        Some(SpotifyCommand::Next)
    } else if virtual_key(e) == VK_PAUSE {
        Some(SpotifyCommand::PlayPause)
    } else {
        None
    }
}

/// The message that a triggered command becomes.
pub open spec fn dispatch(target: WindowHandle, trigger: Option<SpotifyCommand>) -> Option<AppCommandMessage> {
    match trigger {
        Some(c) => Some(command_message(target, c)),
        None => None,
    }
}

/// The hooks' decisions, bound to the window that receives the commands.
#[derive(Clone, Copy, Debug, PartialEq, Eq, Structural)]
pub struct MediaHooks {
    pub target: WindowHandle,
}

/// Why the hooks could not be set up.
#[derive(Clone, Copy, Debug, PartialEq, Eq, Structural)]
pub enum StartupError {
    /// No window of the player was found.
    TargetNotFound,
}

impl MediaHooks {
    pub fn new(target: WindowHandle) -> (r: MediaHooks)
        ensures
            r.target == target,
    {
        MediaHooks { target }
    }

    /// Binds the hooks to the window that the search found; without one
    /// there are no hooks to install.
    pub fn from_search(found: Option<WindowHandle>) -> (r: Result<MediaHooks, StartupError>)
        ensures
            found is None <==> r == Err::<MediaHooks, StartupError>(StartupError::TargetNotFound),
            found is Some ==> r == Ok::<MediaHooks, StartupError>(MediaHooks { target: found->0 }),
    {
        match found {
            Some(target) => Ok(MediaHooks::new(target)),
            None => Err(StartupError::TargetNotFound),
        }
    }

    /// Decides on one mouse event. The event always goes on to the next hook
    /// unchanged.
    pub fn on_mouse(&self, event: MouseEvent) -> (r: HookReply<MouseEvent>)
        ensures
            r.send == dispatch(self.target, mouse_trigger(event)),
            r.forward == event,
    {
        let send = if event.message == WM_XBUTTONDOWN && (event.mouse_data >> 16u32) == 1 {
            Some(app_command(self.target, SpotifyCommand::PlayPause))
        } else {
            None
        };
        HookReply { send, forward: event }
    }

    /// Decides on one keyboard event. The event always goes on to the next
    /// hook unchanged.
    pub fn on_key(&self, event: KeyEvent) -> (r: HookReply<KeyEvent>)
        ensures
            r.send == dispatch(self.target, key_trigger(event)),
            r.forward == event,
    {
        let mut send = None;
        if event.message == WM_KEYDOWN {
            let key = event.vk_code & 0xFFFFu32;
            if key == VK_NUMLOCK {
                send = Some(app_command(self.target, SpotifyCommand::Next));
            } else if key == VK_PAUSE {
                send = Some(app_command(self.target, SpotifyCommand::PlayPause));
            }
        }
        HookReply { send, forward: event }
    }
}

/// Only a key going down triggers a command: any other keyboard message,
/// NumLock and Pause released included, sends nothing.
pub proof fn lemma_key_release_sends_nothing(target: WindowHandle, e: KeyEvent)
    requires
        e.message != WM_KEYDOWN,
    ensures
        dispatch(target, key_trigger(e)) is None,
{
}

/// Only the first extra button going down triggers a command.
pub proof fn lemma_mouse_trigger_only_first_button(target: WindowHandle, e: MouseEvent)
    ensures
        dispatch(target, mouse_trigger(e)) is Some <==> (e.message == WM_XBUTTONDOWN && (e.mouse_data
            >> 16u32) == 1),
{
}

} // verus!
