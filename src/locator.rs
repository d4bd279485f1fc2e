use vstd::prelude::*;

use crate::command::WindowHandle;

verus! {

/// The player's executable file name, as the bytes of an image path end.
pub open spec fn target_image() -> Seq<u8> {
    // "Spotify.exe"
    seq![83u8, 112, 111, 116, 105, 102, 121, 46, 101, 120, 101]
}

/// Whether a process image path names the player: it ends with the
/// executable's file name, compared byte for byte. The name is ASCII, so a
/// path ends with it as text exactly when its bytes end with it.
pub open spec fn names_target(path: Seq<u8>) -> bool {
    &&& path.len() >= target_image().len()
    &&& path.subrange(path.len() - target_image().len(), path.len() as int) == target_image()
}

/// Tells whether the image path `path` is the player's.
pub fn image_names_target(path: &[u8]) -> (r: bool)
    ensures
        r == names_target(path@),
{
    // "Spotify.exe"
    let name: [u8; 11] = [83u8, 112, 111, 116, 105, 102, 121, 46, 101, 120, 101];
    assert(name@ =~= target_image());
    let n: usize = path.len();
    if n < 11 {
        return false;
    }
    let start: usize = n - 11;
    let mut i: usize = 0;
    while i < 11
        invariant
            0 <= i <= 11,
            start + 11 == n,
            n == path@.len(),
            name@ == target_image(),
            forall|j: int| 0 <= j < i ==> path@[start + j] == target_image()[j],
        decreases 11 - i,
    {
        if path[start + i] != name[i] {
            assert(path@.subrange(start as int, path@.len() as int)[i as int] != target_image()[i as int]);
            return false;
        }
        i = i + 1;
    }
    assert(path@.subrange(start as int, path@.len() as int) =~= target_image());
    true
}

/// Where the search stands. A process handle is held in `Reading` and in
/// `Closing`, and in no other phase.
#[derive(Clone, Copy, Debug, PartialEq, Eq, Structural)]
pub enum Phase {
    /// Waiting for the next window.
    Idle,
    /// Opening the process that owns `window`.
    Opening { window: WindowHandle },
    /// Reading the image path of the opened process.
    Reading { window: WindowHandle },
    /// Releasing the process handle; `matched` tells whether its path named
    /// the player.
    Closing { window: WindowHandle, matched: bool },
    /// The player's window is `window`; the search is over.
    Found { window: WindowHandle },
}

/// What the OS reported to the search.
#[derive(Debug)]
pub enum ProbeEvent {
    /// The enumeration reached a window.
    Window { handle: WindowHandle },
    /// The owning process could not be opened for queries.
    OpenFailed,
    /// The owning process was opened: a handle is now held.
    Opened,
    /// The image path of the process; empty where it could not be read.
    ImagePath { path: Vec<u8> },
    /// The process handle was released.
    Closed,
}

/// What the search asks of the OS next.
#[derive(Clone, Copy, Debug, PartialEq, Eq, Structural)]
pub enum ProbeAction {
    /// Open the process that owns `window`, with query rights only.
    OpenProcess { window: WindowHandle },
    /// Read the image path of the open process.
    ReadImagePath,
    /// Release the process handle.
    CloseProcess,
    /// Go on to the next window.
    NextWindow,
    /// Stop the enumeration: `window` is the player's.
    StopEnumeration { window: WindowHandle },
}

/// Whether the search holds a process handle in phase `p`.
pub open spec fn holds_process(p: Phase) -> bool {
    p is Reading || p is Closing
}

/// One step of the search: the next phase and the action asked for, or
/// `None` where the event does not belong to the phase (the phase stays).
pub open spec fn next_step(p: Phase, e: ProbeEvent) -> Option<(Phase, ProbeAction)> {
    match p {
        Phase::Idle => match e {
            ProbeEvent::Window { handle } => Some(
                (Phase::Opening { window: handle }, ProbeAction::OpenProcess { window: handle }),
            ),
            _ => None,
        },
        Phase::Opening { window } => match e {
            ProbeEvent::OpenFailed => Some((Phase::Idle, ProbeAction::NextWindow)),
            ProbeEvent::Opened => Some((Phase::Reading { window }, ProbeAction::ReadImagePath)),
            _ => None,
        },
        Phase::Reading { window } => match e {
            ProbeEvent::ImagePath { path } => Some(
                (Phase::Closing { window, matched: names_target(path@) }, ProbeAction::CloseProcess),
            ),
            _ => None,
        },
        Phase::Closing { window, matched } => match e {
            ProbeEvent::Closed => if matched {
                Some((Phase::Found { window }, ProbeAction::StopEnumeration { window }))
            } else {
                Some((Phase::Idle, ProbeAction::NextWindow))
            },
            _ => None,
        },
        Phase::Found { .. } => None,
    }
}

/// The phase after a step, whether or not the event was taken.
pub open spec fn after(p: Phase, e: ProbeEvent) -> Phase {
    match next_step(p, e) {
        Some(step) => step.0,
        None => p,
    }
}

/// The search for the player's window among the top-level windows, one OS
/// report at a time. Each window's process is opened, its image path read
/// and the handle released before the next window; the first window whose
/// path names the player ends the search.
pub struct Locator {
    phase: Phase,
}

impl View for Locator {
    type V = Phase;

    closed spec fn view(&self) -> Phase {
        self.phase
    }
}

impl Locator {
    pub fn new() -> (r: Locator)
        ensures
            r@ == Phase::Idle,
    {
        Locator { phase: Phase::Idle }
    }

    /// Takes one report from the OS and says what to do next.
    pub fn step(&mut self, event: ProbeEvent) -> (r: Option<ProbeAction>)
        ensures
            r == (match next_step(old(self)@, event) {
                Some(step) => Some(step.1),
                None => None::<ProbeAction>,
            }),
            final(self)@ == after(old(self)@, event),
    {
        let (phase, action) = match self.phase {
            Phase::Idle => match event {
                ProbeEvent::Window { handle } => (
                    Phase::Opening { window: handle },
                    ProbeAction::OpenProcess { window: handle },
                ),
                _ => return None,
            },
            Phase::Opening { window } => match event {
                ProbeEvent::OpenFailed => (Phase::Idle, ProbeAction::NextWindow),
                ProbeEvent::Opened => (Phase::Reading { window }, ProbeAction::ReadImagePath),
                _ => return None,
            },
            Phase::Reading { window } => match event {
                ProbeEvent::ImagePath { path } => {
                    let matched = image_names_target(path.as_slice());
                    (Phase::Closing { window, matched }, ProbeAction::CloseProcess)
                },
                _ => return None,
            },
            Phase::Closing { window, matched } => match event {
                ProbeEvent::Closed => if matched {
                    (Phase::Found { window }, ProbeAction::StopEnumeration { window })
                } else {
                    (Phase::Idle, ProbeAction::NextWindow)
                },
                _ => return None,
            },
            Phase::Found { .. } => return None,
        };
        self.phase = phase;
        Some(action)
    }

    /// The player's window, once the search has found it.
    pub fn target(&self) -> (r: Option<WindowHandle>)
        ensures
            r == (match self@ {
                Phase::Found { window } => Some(window),
                _ => None::<WindowHandle>,
            }),
    {
        match self.phase {
            Phase::Found { window } => Some(window),
            _ => None,
        }
    }

    /// Whether a process handle is held now.
    pub fn holds_process(&self) -> (r: bool)
        ensures
            r == holds_process(self@),
    {
        match self.phase {
            Phase::Reading { .. } | Phase::Closing { .. } => true,
            _ => false,
        }
    }
}

/// The phase after a sequence of reports, taken one at a time.
pub open spec fn run(p: Phase, events: Seq<ProbeEvent>) -> Phase
    decreases events.len(),
{
    if events.len() == 0 {
        p
    } else {
        run(after(p, events[0]), events.drop_first())
    }
}

/// How many process handles the search took as opened over `events`.
pub open spec fn opened_count(p: Phase, events: Seq<ProbeEvent>) -> nat
    decreases events.len(),
{
    if events.len() == 0 {
        0
    } else {
        (if p is Opening && events[0] is Opened { 1nat } else { 0nat })
            + opened_count(after(p, events[0]), events.drop_first())
    }
}

/// How many process handles the search took as released over `events`.
pub open spec fn closed_count(p: Phase, events: Seq<ProbeEvent>) -> nat
    decreases events.len(),
{
    if events.len() == 0 {
        0
    } else {
        (if p is Closing && events[0] is Closed { 1nat } else { 0nat })
            + closed_count(after(p, events[0]), events.drop_first())
    }
}

/// The number of process handles held in phase `p`.
pub open spec fn held(p: Phase) -> nat {
    if holds_process(p) { 1 } else { 0 }
}

/// Every process handle that is opened is released: over any sequence of
/// reports, the handles opened and those held at the start add up to the
/// handles released and those held at the end. Between windows no handle is
/// held, so there the opened and released counts agree.
pub proof fn lemma_handles_released(p: Phase, events: Seq<ProbeEvent>)
    ensures
        opened_count(p, events) + held(p) == closed_count(p, events) + held(run(p, events)),
    decreases events.len(),
{
    if events.len() > 0 {
        lemma_handles_released(after(p, events[0]), events.drop_first());
    }
}

/// The search leaves a window, to go on or to stop, only once the process
/// handle taken for it has been released.
pub proof fn lemma_no_handle_between_windows(p: Phase, e: ProbeEvent)
    ensures
        match next_step(p, e) {
            Some(step) => (step.1 is NextWindow || step.1 is StopEnumeration) ==> !holds_process(step.0),
            None => true,
        },
{
}

/// One window, probed in full: the search stops on it, with it as the
/// target, exactly when its image path names the player; else it goes on to
/// the next window holding nothing.
pub proof fn lemma_probe_window(w: WindowHandle, path: Vec<u8>)
    ensures
        ({
            let events = seq![
                ProbeEvent::Window { handle: w },
                ProbeEvent::Opened,
                ProbeEvent::ImagePath { path },
                ProbeEvent::Closed,
            ];
            let closing = Phase::Closing { window: w, matched: names_target(path@) };
            &&& run(Phase::Idle, events) == (if names_target(path@) {
                Phase::Found { window: w }
            } else {
                Phase::Idle
            })
            &&& next_step(closing, ProbeEvent::Closed) == Some(
                (
                    run(Phase::Idle, events),
                    if names_target(path@) {
                        ProbeAction::StopEnumeration { window: w }
                    } else {
                        ProbeAction::NextWindow
                    },
                ),
            )
        }),
{
    let events = seq![
        ProbeEvent::Window { handle: w },
        ProbeEvent::Opened,
        ProbeEvent::ImagePath { path },
        ProbeEvent::Closed,
    ];
    let e1 = events.drop_first();
    let e2 = e1.drop_first();
    let e3 = e2.drop_first();
    let matched = names_target(path@);
    let last = if matched { Phase::Found { window: w } } else { Phase::Idle };
    assert(e1[0] == ProbeEvent::Opened);
    assert(e2[0] == ProbeEvent::ImagePath { path });
    assert(e3[0] == ProbeEvent::Closed);
    assert(e3.drop_first().len() == 0);
    assert(run(last, e3.drop_first()) == last);
    assert(run(Phase::Closing { window: w, matched }, e3) == last);
    assert(run(Phase::Reading { window: w }, e2) == last);
    assert(run(Phase::Opening { window: w }, e1) == last);
}

/// Once found, the target stays: no later report is taken and none changes it,
/// so the enumeration asks for nothing more.
pub proof fn lemma_found_is_final(w: WindowHandle, events: Seq<ProbeEvent>)
    ensures
        run(Phase::Found { window: w }, events) == (Phase::Found { window: w }),
        forall|e: ProbeEvent| next_step(Phase::Found { window: w }, e) is None,
    decreases events.len(),
{
    if events.len() > 0 {
        lemma_found_is_final(w, events.drop_first());
    }
}

/// Whether `e` reports an image path that names the player.
pub open spec fn reports_target(e: ProbeEvent) -> bool {
    match e {
        ProbeEvent::ImagePath { path } => names_target(path@),
        _ => false,
    }
}

/// Whether some image path among `events` names the player.
pub open spec fn some_path_matches(events: Seq<ProbeEvent>) -> bool {
    exists|i: int| 0 <= i < events.len() && reports_target(#[trigger] events[i])
}

/// Without an image path that names the player, the search finds nothing.
pub proof fn lemma_no_match_not_found(events: Seq<ProbeEvent>)
    requires
        !some_path_matches(events),
    ensures
        !(run(Phase::Idle, events) is Found),
{
    lemma_no_match_from(Phase::Idle, events);
}

proof fn lemma_no_match_from(p: Phase, events: Seq<ProbeEvent>)
    requires
        !(p is Found),
        !(p matches Phase::Closing { matched, .. } && matched),
        !some_path_matches(events),
    ensures
        !(run(p, events) is Found),
    decreases events.len(),
{
    if events.len() > 0 {
        let rest = events.drop_first();
        assert forall|i: int| 0 <= i < rest.len() implies !reports_target(#[trigger] rest[i]) by {
            assert(rest[i] == events[i + 1]);
        }
        assert(!reports_target(events[0]));
        lemma_no_match_from(after(p, events[0]), rest);
    }
}

} // verus!
