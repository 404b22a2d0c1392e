//! The sidecar supervisor: a state machine that owns the backend process.
//!
//! The supervisor is driven by events reported by the host (setup ran, the
//! spawn attempt succeeded or failed, an output event arrived, the output
//! stream ended) and answers with the one instruction the host must carry
//! out next. All policy lives in the transition function: development builds
//! never spawn, release builds spawn exactly once, the process handle is
//! held for as long as the child's output stream has not ended, and a failed
//! spawn aborts startup instead of continuing without a backend.

use vstd::prelude::*;

verus! {

/// Build-time profile of the application. In a development build the backend
/// is started by hand outside the application, so the supervisor must not
/// start a second one; in a release build the supervisor owns the backend.
#[derive(Clone, Copy, PartialEq, Eq, Structural, Debug)]
pub enum RunMode {
    Development,
    Release,
}

/// Where the supervisor stands in the backend's lifecycle.
#[derive(Clone, Copy, PartialEq, Eq, Structural, Debug)]
pub enum Phase {
    /// Application setup has not reached the supervisor yet.
    NotStarted,
    /// The host was told to spawn the backend and has not yet reported back.
    Spawning,
    /// The backend is alive; the supervisor holds its process handle and
    /// drains its output.
    Running,
    /// Terminal: the run is over, by policy (development build), by spawn
    /// failure, or because the child's output stream ended.
    Exited,
}

/// What the host reports to the supervisor.
#[derive(Clone, Copy, PartialEq, Eq, Structural, Debug)]
pub enum Event {
    /// Application setup invoked the supervisor.
    Start,
    /// The spawn attempt produced a live child process.
    SpawnSucceeded,
    /// The spawn attempt failed (executable absent, not executable, or the
    /// platform could not resolve it).
    SpawnFailed,
    /// One output event (a line or chunk of standard output or error)
    /// arrived from the child. Its payload is opaque and discarded.
    OutputReceived,
    /// The child's output stream signalled end: the child exited, crashed,
    /// or closed its output. Read errors are reported as this event too.
    StreamEnded,
}

/// The one instruction the supervisor hands back to the host.
#[derive(Clone, Copy, PartialEq, Eq, Structural, Debug)]
pub enum Action {
    /// Spawn the backend executable and report `SpawnSucceeded` or
    /// `SpawnFailed`.
    SpawnBackend,
    /// Keep the process handle alive, wait for the next output event, and
    /// report `OutputReceived` or `StreamEnded`.
    AwaitEvent,
    /// Fatal: the backend could not be started; application startup must not
    /// proceed to an interactive state.
    AbortStartup,
    /// Nothing to do: the supervising task may end (the handle, if any was
    /// ever held, is released only in this situation).
    Idle,
}

/// The supervisor's whole state. One value of this type exists per
/// application run; the host owns it for the lifetime of the supervising
/// task.
#[derive(Clone, Copy, PartialEq, Eq, Structural, Debug)]
pub struct Supervisor {
    /// Build-time profile; never changes during a run.
    pub mode: RunMode,
    /// Current lifecycle phase.
    pub phase: Phase,
    /// Whether the supervisor currently holds the child's process handle.
    /// Dropping the handle closes the child's input stream, which the child
    /// takes as a termination signal, so this must stay true for as long as
    /// the child's output stream has not ended.
    pub handle_live: bool,
    /// Whether the child's output stream has signalled end.
    pub stream_ended: bool,
    /// Whether a spawn instruction has ever been handed out.
    pub spawn_requested: bool,
    /// Whether the spawn attempt failed; a fatal startup condition.
    pub spawn_failed: bool,
}

impl Supervisor {
    /// Well-formedness: what holds of every state the machine can reach.
    pub open spec fn wf(self) -> bool {
        &&& (self.handle_live <==> self.phase is Running)
        &&& (self.phase is Spawning || self.phase is Running
                ==> self.mode is Release && self.spawn_requested)
        &&& (self.spawn_requested ==> self.mode is Release && !(self.phase is NotStarted))
        &&& (self.stream_ended ==> self.phase is Exited && self.spawn_requested)
        &&& (self.spawn_failed ==> self.phase is Exited && self.spawn_requested
                && !self.stream_ended)
        &&& (self.phase is NotStarted ==> !self.stream_ended && !self.spawn_failed)
    }
}

/// The supervisor's complete transition function: from a state and an event
/// to the next state and the instruction handed to the host. Events that
/// make no sense in the current phase (a second `Start`, a stray output
/// event after exit) change nothing and ask for nothing.
pub open spec fn transition(s: Supervisor, ev: Event) -> (Supervisor, Action) {
    match (s.phase, ev) {
        (Phase::NotStarted, Event::Start) => {
            if s.mode is Development {
                (Supervisor { phase: Phase::Exited, ..s }, Action::Idle)
            } else {
                (
                    Supervisor { phase: Phase::Spawning, spawn_requested: true, ..s },
                    Action::SpawnBackend,
                )
            }
        },
        (Phase::Spawning, Event::SpawnSucceeded) => {
            (Supervisor { phase: Phase::Running, handle_live: true, ..s }, Action::AwaitEvent)
        },
        (Phase::Spawning, Event::SpawnFailed) => {
            (Supervisor { phase: Phase::Exited, spawn_failed: true, ..s }, Action::AbortStartup)
        },
        (Phase::Running, Event::OutputReceived) => (s, Action::AwaitEvent),
        (Phase::Running, Event::StreamEnded) => {
            (
                Supervisor { phase: Phase::Exited, handle_live: false, stream_ended: true, ..s },
                Action::Idle,
            )
        },
        _ => (s, Action::Idle),
    }
}

impl Supervisor {
    /// A fresh supervisor for one application run, before setup has run.
    pub fn new(mode: RunMode) -> (s: Supervisor)
        ensures
            s.wf(),
            s.mode == mode,
            s.phase is NotStarted,
            !s.handle_live,
            !s.stream_ended,
            !s.spawn_requested,
            !s.spawn_failed,
    {
        Supervisor {
            mode,
            phase: Phase::NotStarted,
            handle_live: false,
            stream_ended: false,
            spawn_requested: false,
            spawn_failed: false,
        }
    }

    /// Feed one event to the supervisor and get the host's next instruction.
    ///
    /// Beyond following `transition` exactly, the contract restates the
    /// supervision policy: a development build is never told to spawn; a
    /// spawn is asked for exactly on the first setup of a release build; the
    /// handle stays live, and the phase stays `Running`, for every event but
    /// stream end; leaving `Running` happens only on stream end; and a spawn
    /// failure is answered with a startup abort.
    pub fn step(&mut self, ev: Event) -> (a: Action)
        requires
            old(self).wf(),
        ensures
            final(self).wf(),
            *final(self) == transition(*old(self), ev).0,
            a == transition(*old(self), ev).1,
            final(self).mode == old(self).mode,
            old(self).mode is Development
                ==> a !is SpawnBackend && !final(self).spawn_requested
                    && !final(self).handle_live,
            a is SpawnBackend
                <==> old(self).phase is NotStarted && old(self).mode is Release
                    && ev is Start,
            old(self).phase is Running && !(ev is StreamEnded)
                ==> final(self).phase is Running && final(self).handle_live,
            old(self).phase is Running && ev is OutputReceived ==> a is AwaitEvent,
            old(self).phase is Running && !(final(self).phase is Running)
                ==> ev is StreamEnded && final(self).stream_ended,
            old(self).phase is Spawning && ev is SpawnSucceeded
                ==> final(self).phase is Running && final(self).handle_live
                    && a is AwaitEvent,
            old(self).phase is Spawning && ev is SpawnFailed
                ==> final(self).phase is Exited && final(self).spawn_failed
                    && a is AbortStartup,
    {
        match (self.phase, ev) {
            (Phase::NotStarted, Event::Start) => {
                if self.mode == RunMode::Development {
                    self.phase = Phase::Exited;
                    Action::Idle
                } else {
                    self.phase = Phase::Spawning;
                    self.spawn_requested = true;
                    Action::SpawnBackend
                }
            },
            (Phase::Spawning, Event::SpawnSucceeded) => {
                self.phase = Phase::Running;
                self.handle_live = true;
                Action::AwaitEvent
            },
            (Phase::Spawning, Event::SpawnFailed) => {
                self.phase = Phase::Exited;
                self.spawn_failed = true;
                Action::AbortStartup
            },
            (Phase::Running, Event::OutputReceived) => Action::AwaitEvent,
            (Phase::Running, Event::StreamEnded) => {
                self.phase = Phase::Exited;
                self.handle_live = false;
                self.stream_ended = true;
                Action::Idle
            },
            _ => Action::Idle,
        }
    }
}

} // verus!
