//! The decisions of a supervised run of one external command: the user may
//! cancel it (terminate) or detach from it (leave it running), while a
//! background poll may harvest a value for use once the run ends.
//!
//! The caller owns the threads, the child process and the clock; it feeds
//! each event to [`Flags`] and performs the action that comes back.

use vstd::prelude::*;
use crate::error::Error;

verus! {

/// The state shared by the activities of one supervised run.
#[derive(Clone, Copy, Debug)]
pub struct Flags<T> {
    /// Cleared on cancel and when the command exits by itself.
    pub running: bool,
    /// Set when the user detaches from the command.
    pub detached: bool,
    /// The last value harvested by the background poll.
    pub result: Option<T>,
}

/// Something that happened during a supervised run.
#[derive(Clone, Copy, Debug)]
pub enum SupervisorEvent<T> {
    /// A key was pressed.
    Key(char),
    /// The background poll returned.
    Polled(Option<T>),
    /// The command was seen to have exited by itself.
    ChildExited,
}

/// What the process watcher must do with the command.
#[derive(Clone, Copy, Debug, PartialEq, Eq, Structural)]
pub enum WatchAction {
    /// Keep watching.
    Continue,
    /// Terminate the command and stop watching.
    Terminate,
    /// Leave the command running on its own and stop watching.
    Release,
    /// The command exited by itself; stop watching.
    Finished,
}

/// The key that cancels a supervised run.
pub open spec fn cancel_key() -> char {
    'c'
}

/// The key that detaches from a supervised run.
pub open spec fn detach_key() -> char {
    'd'
}

/// Whether the run is over for the UI: cancelled, exited or detached.
pub open spec fn run_over<T>(f: Flags<T>) -> bool {
    !f.running || f.detached
}

/// The state after one event. Once the run is over nothing changes any more:
/// in particular nothing is harvested after a detach.
pub open spec fn after_event<T>(f: Flags<T>, e: SupervisorEvent<T>) -> Flags<T> {
    if run_over(f) {
        f
    } else {
        match e {
            SupervisorEvent::Key(c) => {
                if c == cancel_key() {
                    Flags { running: false, ..f }
                } else if c == detach_key() {
                    Flags { detached: true, ..f }
                } else {
                    f
                }
            },
            SupervisorEvent::Polled(v) => {
                match v {
                    Some(_) => Flags { result: v, ..f },
                    None => f,
                }
            },
            SupervisorEvent::ChildExited => Flags { running: false, ..f },
        }
    }
}

/// The state after the events `es`, in order.
pub open spec fn after_events<T>(f: Flags<T>, es: Seq<SupervisorEvent<T>>) -> Flags<T>
    decreases es.len(),
{
    if es.len() == 0 {
        f
    } else {
        after_event(after_events(f, es.drop_last()), es.last())
    }
}

/// What the process watcher does in state `f`.
pub open spec fn watch_action<T>(f: Flags<T>, child_exited: bool) -> WatchAction {
    if f.detached {
        WatchAction::Release
    } else if !f.running {
        WatchAction::Terminate
    } else if child_exited {
        WatchAction::Finished
    } else {
        WatchAction::Continue
    }
}

impl<T: Copy> Flags<T> {
    /// A run that has just started: running, attached, nothing harvested.
    pub fn atomic() -> (r: Flags<T>)
        ensures
            r.running,
            !r.detached,
            r.result is None,
    {
        Flags { running: true, detached: false, result: None }
    }

    /// Whether the activities of the run must stop: it was cancelled, the
    /// command exited, or the user detached.
    pub fn deny_use(&self) -> (r: bool)
        ensures
            r == run_over(*self),
    {
        !self.running || self.detached
    }

    pub fn running(&self) -> (r: bool)
        ensures
            r == self.running,
    {
        self.running
    }

    pub fn detached(&self) -> (r: bool)
        ensures
            r == self.detached,
    {
        self.detached
    }

    pub fn set_running(&mut self, setting: bool)
        ensures
            *final(self) == (Flags { running: setting, ..*old(self) }),
    {
        self.running = setting;
    }

    pub fn set_detached(&mut self, setting: bool)
        ensures
            *final(self) == (Flags { detached: setting, ..*old(self) }),
    {
        self.detached = setting;
    }

    /// Stores a harvested value, unless the run is over.
    pub fn set_result(&mut self, result: Option<T>)
        ensures
            *final(self) == (if run_over(*old(self)) { *old(self) } else { Flags { result, ..*old(self) } }),
    {
        if !self.deny_use() {
            self.result = result;
        }
    }

    /// Takes one event of the run.
    pub fn handle(&mut self, event: SupervisorEvent<T>)
        ensures
            *final(self) == after_event(*old(self), event),
    {
        if self.deny_use() {
            return;
        }
        match event {
            SupervisorEvent::Key(c) => {
                if c == 'c' {
                    self.set_running(false);
                } else if c == 'd' {
                    self.set_detached(true);
                }
            },
            SupervisorEvent::Polled(v) => {
                if v.is_some() {
                    self.set_result(v);
                }
            },
            SupervisorEvent::ChildExited => {
                self.set_running(false);
            },
        }
    }

    /// What the process watcher does now; when the command has exited by
    /// itself the run stops.
    pub fn watch(&mut self, child_exited: bool) -> (r: WatchAction)
        ensures
            r == watch_action(*old(self), child_exited),
            *final(self) == (if r == WatchAction::Finished { Flags { running: false, ..*old(self) } } else { *old(self) }),
    {
        if self.detached {
            WatchAction::Release
        } else if !self.running {
            WatchAction::Terminate
        } else if child_exited {
            self.set_running(false);
            WatchAction::Finished
        } else {
            WatchAction::Continue
        }
    }

    /// The value handed back to the caller once the run is over, or `None`
    /// while it goes on.
    pub fn outcome(&self) -> (r: Option<Option<T>>)
        ensures
            r == (if run_over(*self) { Some(self.result) } else { None }),
    {
        if self.deny_use() {
            Some(self.result)
        } else {
            None
        }
    }
}

/// Starts a supervised run from the outcome of launching the command: a
/// launch that failed is reported before anything else happens.
pub fn start<T: Copy>(launch: Result<(), String>) -> (r: Result<Flags<T>, Error>)
    ensures
        launch.is_ok() == r.is_ok(),
        r.is_ok() ==> r.unwrap() == (Flags::<T> { running: true, detached: false, result: None }),
        launch.is_err() ==> r == Err::<Flags<T>, Error>(Error::CommandFailed(launch->Err_0)),
{
    match launch {
        Ok(()) => Ok(Flags::atomic()),
        Err(reason) => Err(Error::CommandFailed(reason)),
    }
}

/// Cancelling a run whose command is still going ends the run at once for
/// the UI, and the watcher's next look terminates the command.
pub proof fn lemma_cancel_terminates<T>(f: Flags<T>)
    requires
        f.running,
        !f.detached,
    ensures
        run_over(after_event(f, SupervisorEvent::Key(cancel_key()))),
        watch_action(after_event(f, SupervisorEvent::Key(cancel_key())), false) == WatchAction::Terminate,
        watch_action(after_event(f, SupervisorEvent::Key(cancel_key())), true) == WatchAction::Terminate,
{
}

/// Detaching ends the run at once for the UI and leaves the command running;
/// the value handed back is the one harvested before the detach, whatever
/// happens afterwards.
pub proof fn lemma_detach_freezes<T>(f: Flags<T>, later: Seq<SupervisorEvent<T>>)
    requires
        f.running,
        !f.detached,
    ensures
        run_over(after_event(f, SupervisorEvent::Key(detach_key()))),
        watch_action(after_event(f, SupervisorEvent::Key(detach_key())), false) == WatchAction::Release,
        watch_action(after_event(f, SupervisorEvent::Key(detach_key())), true) == WatchAction::Release,
        after_events(after_event(f, SupervisorEvent::Key(detach_key())), later).result == f.result,
        after_events(after_event(f, SupervisorEvent::Key(detach_key())), later).detached,
{
    lemma_over_is_final(after_event(f, SupervisorEvent::Key(detach_key())), later);
}

/// A run that is over stays as it is, whatever events follow.
pub proof fn lemma_over_is_final<T>(f: Flags<T>, later: Seq<SupervisorEvent<T>>)
    requires
        run_over(f),
    ensures
        after_events(f, later) == f,
    decreases later.len(),
{
    if later.len() > 0 {
        lemma_over_is_final(f, later.drop_last());
    }
}

} // verus!
