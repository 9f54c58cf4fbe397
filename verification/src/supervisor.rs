//! Supervision of one external process: a slot that holds at most one
//! handle, so that a process is never started twice nor stopped twice.
//!
//! The handle type `H` stands for whatever owns the running process. The
//! slot never looks inside it.

use vstd::prelude::*;

use crate::text::{push_str, result_view, string_of};

verus! {

/// The supervised processes.
#[derive(Debug, Clone, Copy, PartialEq, Eq, Structural)]
pub enum ProcessKind {
    /// The backend server.
    Server,
    /// The tunnel client.
    Tunnel,
}

/// A request that the state of the slot does not allow.
#[derive(Debug, Clone, Copy, PartialEq, Eq, Structural)]
pub enum StateConflict {
    /// Start was asked for while a process is running.
    AlreadyRunning,
    /// Stop was asked for while no process is running.
    NotRunning,
}

/// Why a start did not put a process into the slot.
#[derive(Debug)]
pub enum StartError {
    /// The slot was occupied; nothing was spawned.
    Conflict(StateConflict),
    /// The slot was empty, and spawning failed with this reason.
    Spawn(String),
}

/// The slot of one supervised process: empty, or holding the handle of the
/// running process.
pub struct Supervisor<H> {
    slot: Option<H>,
}

impl<H> Supervisor<H> {
    /// The handle that the slot holds, if any.
    pub closed spec fn handle(&self) -> Option<H> {
        self.slot
    }

    /// An empty slot.
    pub fn new() -> (s: Self)
        ensures
            s.handle() is None,
    {
        Supervisor { slot: None }
    }

    /// Whether a process is running.
    pub fn is_running(&self) -> (b: bool)
        ensures
            b == (self.handle() is Some),
    {
        self.slot.is_some()
    }

    /// The handle of the running process.
    pub fn current(&self) -> (r: Option<&H>)
        ensures
            match r {
                Some(h) => self.handle() == Some(*h),
                None => self.handle() is None,
            },
    {
        self.slot.as_ref()
    }

    /// Checks that a start is allowed: it is refused exactly when a process
    /// is running.
    pub fn vacancy(&self) -> (r: Result<(), StateConflict>)
        ensures
            r == if self.handle() is Some {
                Err::<(), StateConflict>(StateConflict::AlreadyRunning)
            } else {
                Ok::<(), StateConflict>(())
            },
    {
        if self.slot.is_some() {
            Err(StateConflict::AlreadyRunning)
        } else {
            Ok(())
        }
    }

    /// Starts a process, unless one is running.
    ///
    /// On an occupied slot this fails with a state conflict, `spawn` is not
    /// called, and the slot keeps its handle. On an empty slot `spawn` is
    /// called once: its handle is put into the slot, or its failure is
    /// returned and the slot stays empty.
    pub fn start<F: FnOnce() -> Result<H, String>>(&mut self, spawn: F) -> (r: Result<
        (),
        StartError,
    >)
        requires
            spawn.requires(()),
        ensures
            old(self).handle() is Some ==> final(self).handle() == old(self).handle() && r
                matches Err(StartError::Conflict(StateConflict::AlreadyRunning)),
            old(self).handle() is None ==> match r {
                Ok(()) => final(self).handle() is Some && spawn.ensures(
                    (),
                    Ok(final(self).handle()->0),
                ),
                Err(StartError::Spawn(reason)) => final(self).handle() is None && spawn.ensures(
                    (),
                    Err(reason),
                ),
                Err(StartError::Conflict(_)) => false,
            },
    {
        if self.slot.is_some() {
            return Err(StartError::Conflict(StateConflict::AlreadyRunning));
        }
        match spawn() {
            Ok(handle) => {
                self.slot = Some(handle);
                Ok(())
            },
            Err(reason) => Err(StartError::Spawn(reason)),
        }
    }

    /// Takes the handle out of the slot, so that its process can be killed.
    ///
    /// The slot is empty afterwards. On an empty slot this fails with a
    /// state conflict.
    pub fn stop(&mut self) -> (r: Result<H, StateConflict>)
        ensures
            final(self).handle() is None,
            match old(self).handle() {
                Some(h) => r == Ok::<H, StateConflict>(h),
                None => r == Err::<H, StateConflict>(StateConflict::NotRunning),
            },
    {
        match self.slot.take() {
            Some(h) => Ok(h),
            None => Err(StateConflict::NotRunning),
        }
    }
}

/// The message that reports a state conflict to the user.
pub open spec fn conflict_text(kind: ProcessKind, conflict: StateConflict) -> Seq<char> {
    match (kind, conflict) {
        (ProcessKind::Server, StateConflict::AlreadyRunning) => "Server is already running"@,
        (ProcessKind::Server, StateConflict::NotRunning) => "Server is not running"@,
        (ProcessKind::Tunnel, StateConflict::AlreadyRunning) => "Tunnel is already running"@,
        (ProcessKind::Tunnel, StateConflict::NotRunning) => "Tunnel is not running"@,
    }
}

/// The message that reports a state conflict to the user.
pub fn conflict_message(kind: ProcessKind, conflict: StateConflict) -> (msg: String)
    ensures
        msg@ == conflict_text(kind, conflict),
{
    let text = match (kind, conflict) {
        (ProcessKind::Server, StateConflict::AlreadyRunning) => "Server is already running",
        (ProcessKind::Server, StateConflict::NotRunning) => "Server is not running",
        (ProcessKind::Tunnel, StateConflict::AlreadyRunning) => "Tunnel is already running",
        (ProcessKind::Tunnel, StateConflict::NotRunning) => "Tunnel is not running",
    };
    text.to_owned()
}

/// The reply to a stop that killed the process.
pub open spec fn stopped_text(kind: ProcessKind) -> Seq<char> {
    match kind {
        ProcessKind::Server => "Server stopped"@,
        ProcessKind::Tunnel => "Tunnel stopped"@,
    }
}

/// What the failure of a stop begins with; the reason of the kill's
/// failure follows.
pub open spec fn stop_failure_text(kind: ProcessKind) -> Seq<char> {
    match kind {
        ProcessKind::Server => "Failed to stop server: "@,
        ProcessKind::Tunnel => "Failed to stop tunnel: "@,
    }
}

/// The reply to a stop, given how killing the process that was taken out
/// of the slot ended: the confirmation where the kill succeeded, else the
/// failure with the kill's reason.
pub fn stop_reply(kind: ProcessKind, killed: Result<(), String>) -> (r: Result<String, String>)
    ensures
        result_view(r) == match killed {
            Ok(()) => Ok::<Seq<char>, Seq<char>>(stopped_text(kind)),
            Err(e) => Err::<Seq<char>, Seq<char>>(stop_failure_text(kind) + e@),
        },
{
    match killed {
        Ok(()) => {
            let text = match kind {
                ProcessKind::Server => "Server stopped",
                ProcessKind::Tunnel => "Tunnel stopped",
            };
            Ok(text.to_owned())
        },
        Err(e) => {
            let prefix = match kind {
                ProcessKind::Server => "Failed to stop server: ",
                ProcessKind::Tunnel => "Failed to stop tunnel: ",
            };
            let mut msg: Vec<char> = Vec::new();
            push_str(&mut msg, prefix);
            push_str(&mut msg, e.as_str());
            Err(string_of(msg.as_slice()))
        },
    }
}

} // verus!
