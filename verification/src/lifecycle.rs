//! The life of a session, from the running browser to the confirmed end.
//!
//! A session ends in two ways. Asked to close, the browser shuts itself
//! down; where it does not, the process is stopped by a signal. Both ways
//! end when the process is seen to have exited, and only then is the
//! session done.

use vstd::prelude::*;

verus! {

/// How far a session is on its way to the end.
#[derive(Debug, Clone, Copy, PartialEq, Eq, Structural)]
pub enum Phase {
    /// The browser runs and nothing was asked of it.
    Running,
    /// The browser was asked to close.
    Closing,
    /// The process was sent the signal to stop.
    Killing,
    /// The process has exited.
    Done,
}

/// What happens to a session.
#[derive(Debug, Clone, Copy, PartialEq, Eq, Structural)]
pub enum Event {
    /// The caller closes the window.
    Close,
    /// The browser has to be stopped: its target is gone, or it did not
    /// close in time.
    Kill,
    /// The process was seen to have exited.
    Exited,
}

/// What is to be done about an event.
#[derive(Debug, Clone, Copy, PartialEq, Eq, Structural)]
pub enum Action {
    /// Nothing.
    Nothing,
    /// The browser is to be asked to close.
    RequestClose,
    /// The process is to be sent the signal to stop.
    Signal,
    /// Those who wait for the end are to be released.
    Release,
}

/// The phase after `event`.
pub open spec fn next_phase(phase: Phase, event: Event) -> Phase {
    match (phase, event) {
        (Phase::Done, _) => Phase::Done,
        (_, Event::Exited) => Phase::Done,
        (Phase::Running, Event::Close) => Phase::Closing,
        (Phase::Running, Event::Kill) => Phase::Killing,
        (Phase::Closing, Event::Close) => Phase::Closing,
        (Phase::Closing, Event::Kill) => Phase::Killing,
        (Phase::Killing, _) => Phase::Killing,
    }
}

/// What `event` asks for in `phase`. Each request goes out once: to close
/// when the session still runs, the signal when none was sent yet, and the
/// release when the process exits.
pub open spec fn action_for(phase: Phase, event: Event) -> Action {
    match (phase, event) {
        (Phase::Done, _) => Action::Nothing,
        (_, Event::Exited) => Action::Release,
        (Phase::Running, Event::Close) => Action::RequestClose,
        (Phase::Running, Event::Kill) => Action::Signal,
        (Phase::Closing, Event::Close) => Action::Nothing,
        (Phase::Closing, Event::Kill) => Action::Signal,
        (Phase::Killing, _) => Action::Nothing,
    }
}

impl Phase {
    /// Takes in one event: the phase moves on, and what is to be done about
    /// the event is returned.
    pub fn step(&mut self, event: Event) -> (action: Action)
        ensures
            *final(self) == next_phase(*old(self), event),
            action == action_for(*old(self), event),
    {
        let (next, action) = match (*self, event) {
            (Phase::Done, _) => (Phase::Done, Action::Nothing),
            (_, Event::Exited) => (Phase::Done, Action::Release),
            (Phase::Running, Event::Close) => (Phase::Closing, Action::RequestClose),
            (Phase::Running, Event::Kill) => (Phase::Killing, Action::Signal),
            (Phase::Closing, Event::Close) => (Phase::Closing, Action::Nothing),
            (Phase::Closing, Event::Kill) => (Phase::Killing, Action::Signal),
            (Phase::Killing, _) => (Phase::Killing, Action::Nothing),
        };
        *self = next;
        action
    }

    /// Whether the session is done.
    pub fn done(&self) -> (d: bool)
        ensures
            d == (*self == Phase::Done),
    {
        match self {
            Phase::Done => true,
            _ => false,
        }
    }
}

/// Shutdown is idempotent: a second close, or a second kill, asks for
/// nothing and changes nothing.
pub proof fn lemma_shutdown_idempotent(phase: Phase, event: Event)
    requires
        event != Event::Exited,
    ensures
        next_phase(next_phase(phase, event), event) == next_phase(phase, event),
        action_for(next_phase(phase, event), event) == Action::Nothing,
{
}

/// Once the process has exited, closing and killing ask for nothing, and
/// the session stays done.
pub proof fn lemma_done_is_final(event: Event)
    ensures
        next_phase(Phase::Done, event) == Phase::Done,
        action_for(Phase::Done, event) == Action::Nothing,
{
}

/// Close before exit and exit before close end alike: the session is done,
/// and those who wait were released exactly once, by the exit.
pub proof fn lemma_close_and_exit_commute(phase: Phase, event: Event)
    requires
        phase != Phase::Done,
        event != Event::Exited,
    ensures
        next_phase(next_phase(phase, event), Event::Exited) == Phase::Done,
        next_phase(next_phase(phase, Event::Exited), event) == Phase::Done,
        action_for(next_phase(phase, event), Event::Exited) == Action::Release,
        action_for(phase, Event::Exited) == Action::Release,
        action_for(next_phase(phase, Event::Exited), event) == Action::Nothing,
{
}

} // verus!
