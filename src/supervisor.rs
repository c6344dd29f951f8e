use vstd::prelude::*;
use crate::error::StartupError;
use crate::launch::{backend_program, launch_plan, serve_args, texts, LaunchPlan};
use crate::port::valid_port;

verus! {

/// What the supervisor holds of the backend process, whose handle is of
/// type `H`.
pub enum ProcessState<H> {
    /// No process has been spawned yet.
    NotStarted,
    /// The process was spawned and is owned through this handle.
    Running(H),
    /// The process was asked to terminate; there is no way back.
    Stopped,
}

/// The phase of the lifecycle, without the handle.
#[derive(Debug, Clone, Copy, PartialEq, Eq)]
pub enum Phase {
    NotStarted,
    Running,
    Stopped,
}

pub open spec fn phase_of<H>(st: ProcessState<H>) -> Phase {
    match st {
        ProcessState::NotStarted => Phase::NotStarted,
        ProcessState::Running(_) => Phase::Running,
        ProcessState::Stopped => Phase::Stopped,
    }
}

/// How many processes a state owns.
pub open spec fn owned_count<H>(st: ProcessState<H>) -> nat {
    match st {
        ProcessState::Running(_) => 1,
        _ => 0,
    }
}

/// The state after a spawn attempt has reported `outcome`.
pub open spec fn spawn_step<H>(st: ProcessState<H>, outcome: Result<H, String>) -> ProcessState<H> {
    match outcome {
        Ok(h) => ProcessState::Running(h),
        Err(_) => st,
    }
}

/// What a spawn attempt that reported `outcome` answers: the port that may
/// now be published to the user interface, or the fatal error.
pub open spec fn spawn_answer<H>(port: u16, outcome: Result<H, String>) -> Result<u16, StartupError> {
    match outcome {
        Ok(_) => Ok(port),
        Err(reason) => Err(StartupError::SpawnFailed { reason }),
    }
}

/// The state after shutdown: a running process is stopped; where none was
/// ever started, nothing changes.
pub open spec fn shutdown_step<H>(st: ProcessState<H>) -> ProcessState<H> {
    match st {
        ProcessState::NotStarted => ProcessState::NotStarted,
        _ => ProcessState::Stopped,
    }
}

/// The handle that shutdown must send a kill signal to, if any.
pub open spec fn kill_target<H>(st: ProcessState<H>) -> Option<H> {
    match st {
        ProcessState::Running(h) => Some(h),
        _ => None,
    }
}

/// No state owns more than one backend process.
pub proof fn lemma_at_most_one_owned<H>(st: ProcessState<H>)
    ensures
        owned_count(st) <= 1,
{
}

/// A successful spawn leaves exactly one process owned, the one it
/// reported, and leaves no state in which a spawn may be recorded again.
pub proof fn lemma_spawn_fires_once<H>(st: ProcessState<H>, outcome: Result<H, String>)
    requires
        st is NotStarted,
        outcome is Ok,
    ensures
        owned_count(spawn_step(st, outcome)) == 1,
        kill_target(spawn_step(st, outcome)) == Some(outcome->Ok_0),
        !(spawn_step(st, outcome) is NotStarted),
{
}

/// Shutting down a second time changes nothing and kills nothing.
pub proof fn lemma_shutdown_idempotent<H>(st: ProcessState<H>)
    ensures
        shutdown_step(shutdown_step(st)) == shutdown_step(st),
        kill_target(shutdown_step(st)) is None,
        owned_count(shutdown_step(st)) == 0,
{
}

/// Owns the lifecycle of the one backend process and the port it was told
/// to listen on. The caller creates and signals the OS process; this type
/// decides when, and keeps the handle in between.
pub struct Supervisor<H> {
    port: u16,
    state: ProcessState<H>,
}

impl<H> Supervisor<H> {
    /// The port the backend is bound to, fixed at construction.
    pub closed spec fn allocated_port(&self) -> u16 {
        self.port
    }

    /// What is held of the backend process.
    pub closed spec fn process(&self) -> ProcessState<H> {
        self.state
    }

    pub open spec fn wf(&self) -> bool {
        valid_port(self.allocated_port())
    }

    /// A supervisor for a backend that is to listen on `port`; no process is
    /// started yet.
    pub fn new(port: u16) -> (r: Self)
        requires
            valid_port(port),
        ensures
            r.wf(),
            r.allocated_port() == port,
            r.process() is NotStarted,
    {
        Supervisor { port, state: ProcessState::NotStarted }
    }

    /// The port the user interface connects to. It never changes.
    pub fn current_port(&self) -> (r: u16)
        ensures
            r == self.allocated_port(),
    {
        self.port
    }

    /// The current phase of the lifecycle.
    pub fn phase(&self) -> (r: Phase)
        ensures
            r == phase_of(self.process()),
    {
        match self.state {
            ProcessState::NotStarted => Phase::NotStarted,
            ProcessState::Running(_) => Phase::Running,
            ProcessState::Stopped => Phase::Stopped,
        }
    }

    /// How to start the backend so that it listens on this supervisor's
    /// port, from `working_dir`.
    pub fn launch_plan(&self, working_dir: &str) -> (r: LaunchPlan)
        requires
            self.wf(),
        ensures
            r.program@ == backend_program(),
            texts(r.args@) == serve_args(self.allocated_port()),
            r.working_dir@ == working_dir@,
    {
        launch_plan(self.port, working_dir)
    }

    /// Records what the one spawn attempt reported. On success the handle is
    /// owned from now on and the port may be published to the user
    /// interface; on failure startup must be abandoned.
    pub fn record_spawn(&mut self, outcome: Result<H, String>) -> (r: Result<u16, StartupError>)
        requires
            old(self).process() is NotStarted,
        ensures
            final(self).allocated_port() == old(self).allocated_port(),
            final(self).process() == spawn_step(old(self).process(), outcome),
            r == spawn_answer(old(self).allocated_port(), outcome),
    {
        match outcome {
            Ok(h) => {
                self.state = ProcessState::Running(h);
                Ok(self.port)
            },
            Err(reason) => Err(StartupError::SpawnFailed { reason }),
        }
    }

    /// Stops supervising: hands out the handle that must be sent a kill
    /// signal, if a process is running, and moves to `Stopped`. Where no
    /// process was ever started, or it was already stopped, nothing is to be
    /// killed.
    pub fn shutdown(&mut self) -> (r: Option<H>)
        ensures
            final(self).allocated_port() == old(self).allocated_port(),
            final(self).process() == shutdown_step(old(self).process()),
            r == kill_target(old(self).process()),
    {
        match self.state {
            ProcessState::NotStarted => None,
            _ => {
                let mut st = ProcessState::Stopped;
                core::mem::swap(&mut self.state, &mut st);
                match st {
                    ProcessState::Running(h) => Some(h),
                    _ => None,
                }
            },
        }
    }
}

} // verus!
