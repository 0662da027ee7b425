//! The launch orchestration and the live backend handle.
//!
//! Launching the backend allocates a port, resolves the launch
//! configuration, spawns the child and polls its health endpoint. Each of
//! those four steps is outside work; `LaunchFlow` owns the decisions between
//! them: which step may run next, which failure ends the attempt with which
//! error, and the obligation to kill an already spawned child when readiness
//! never comes, so that a failed launch leaves no orphan process.

use vstd::prelude::*;

use crate::errors::LaunchError;
use crate::urls::{base_url_for_port, base_url_seq};

verus! {

/// A supervised backend process: whether a child process is still attached
/// to this handle, the port the child was given, and the base URL derived
/// from that port.
#[derive(Debug)]
pub struct PythonBackend {
    pub has_process: bool,
    pub port: u16,
    pub base_url: String,
}

impl PythonBackend {
    /// The base URL always belongs to the bound port.
    pub open spec fn wf(&self) -> bool {
        self.base_url@ == base_url_seq(self.port as int)
    }

    /// A handle for a freshly launched, ready backend on `port`.
    pub fn new(port: u16) -> (b: Self)
        ensures
            b.wf(),
            b.has_process,
            b.port == port,
    {
        let base_url = base_url_for_port(port);
        PythonBackend { has_process: true, port, base_url }
    }

    /// The port the backend serves on.
    pub fn port(&self) -> (r: u16)
        ensures
            r == self.port,
    {
        self.port
    }

    /// The backend base URL, e.g. `http://localhost:8000`.
    pub fn base_url<'a>(&'a self) -> (r: &'a str)
        ensures
            r@ == self.base_url@,
    {
        self.base_url.as_str()
    }

    /// Whether the child is still running, judged from a fresh non-blocking
    /// poll of its exit status: running exactly when a child is attached and
    /// the poll saw it still alive. An exited child, a poll error and a
    /// handle with no attached child all count as not running. Takes the
    /// handle by shared borrow: detecting a dead child mutates nothing.
    pub fn is_running(&self, poll: PollOutcome) -> (r: bool)
        ensures
            r == spec_is_running(*self, poll),
    {
        if self.has_process {
            match poll {
                PollOutcome::StillRunning => true,
                PollOutcome::Exited => false,
                PollOutcome::PollFailed => false,
            }
        } else {
            false
        }
    }

    /// Begin the termination sequence: detach the child from the handle.
    ///
    /// The first call on a handle with an attached child returns the grace
    /// wait the caller must drive (signal the child to stop, then poll);
    /// every other call finds nothing attached and returns nothing -- a
    /// successful no-op, which makes shutdown idempotent and is what keeps
    /// two concurrent shutdown triggers from killing the same process twice.
    pub fn shutdown(&mut self) -> (r: Option<crate::shutdown::GraceWait>)
        ensures
            !final(self).has_process,
            final(self).port == old(self).port,
            final(self).base_url == old(self).base_url,
            old(self).has_process ==> ({
                &&& r matches Some(w)
                &&& w == crate::shutdown::GraceWait::spec_new()
            }),
            !old(self).has_process ==> r is None,
    {
        if self.has_process {
            self.has_process = false;
            Some(crate::shutdown::GraceWait::new())
        } else {
            None
        }
    }
}

/// What a non-blocking poll of the child's exit status observed.
#[derive(Clone, Copy, Debug, PartialEq, Eq, Structural)]
pub enum PollOutcome {
    /// The child has already exited and was reaped.
    Exited,
    /// The child is still running.
    StillRunning,
    /// The status could not be read.
    PollFailed,
}

/// What `is_running` answers for a handle and a poll result.
pub open spec fn spec_is_running(b: PythonBackend, poll: PollOutcome) -> bool {
    b.has_process && poll is StillRunning
}

/// Law: a child that exits on its own is detected -- once a poll reports the
/// exit, `is_running` answers false, whatever the handle holds otherwise;
/// and the check mutates nothing, since it takes the handle by shared
/// borrow.
pub proof fn lemma_self_exit_is_detected(b: PythonBackend)
    ensures
        !spec_is_running(b, PollOutcome::Exited),
{
}

/// Where a launch attempt stands. The flow only ever moves forward:
/// allocate a port, resolve the configuration, spawn, probe, and then either
/// a ready backend or a terminal failure.
pub enum LaunchState {
    AllocatingPort,
    ResolvingConfig { port: u16 },
    Spawning { port: u16 },
    Probing { port: u16 },
    Ready { port: u16 },
    Failed { error: LaunchError },
}

/// The launch orchestration: one bounded attempt, no retry on any failure.
pub struct LaunchFlow {
    pub state: LaunchState,
}

impl LaunchFlow {
    /// Begin a launch attempt with port allocation.
    pub fn new() -> (f: Self)
        ensures
            f.state is AllocatingPort,
    {
        LaunchFlow { state: LaunchState::AllocatingPort }
    }

    /// Record the port scan's result. A port moves the flow to configuration
    /// resolution; an exhausted range `[start, end]` ends the attempt with
    /// `PortExhausted`.
    pub fn port_allocated(&mut self, found: Option<u16>, start: u16, end: u16)
        requires
            old(self).state is AllocatingPort,
        ensures
            match found {
                Some(p) => ({
                    &&& final(self).state matches LaunchState::ResolvingConfig { port }
                    &&& port == p
                }),
                None => ({
                    &&& final(self).state matches LaunchState::Failed { error }
                    &&& error == (LaunchError::PortExhausted { start, end })
                }),
            },
    {
        match found {
            Some(p) => {
                self.state = LaunchState::ResolvingConfig { port: p };
            },
            None => {
                self.state = LaunchState::Failed {
                    error: LaunchError::PortExhausted { start, end },
                };
            },
        }
    }

    /// Record whether the launch parameters (executable path, working
    /// directory, environment) could be resolved. Success moves the flow to
    /// spawning on the allocated port; failure ends the attempt with
    /// `ConfigurationError` before anything is spawned.
    pub fn config_resolved(&mut self, ok: bool, detail: String)
        requires
            old(self).state is ResolvingConfig,
        ensures
            ok ==> ({
                &&& final(self).state matches LaunchState::Spawning { port }
                &&& port == old(self).state->ResolvingConfig_port
            }),
            !ok ==> ({
                &&& final(self).state matches LaunchState::Failed { error }
                &&& error == (LaunchError::ConfigurationError { detail })
            }),
    {
        let port = match &self.state {
            LaunchState::ResolvingConfig { port } => *port,
            _ => unreached(),
        };
        if ok {
            self.state = LaunchState::Spawning { port };
        } else {
            self.state = LaunchState::Failed {
                error: LaunchError::ConfigurationError { detail },
            };
        }
    }

    /// Record the spawn's result. A created child moves the flow to the
    /// readiness probe; an OS failure ends the attempt with `SpawnFailure`
    /// and there is no child to clean up.
    pub fn spawned(&mut self, ok: bool, detail: String)
        requires
            old(self).state is Spawning,
        ensures
            ok ==> ({
                &&& final(self).state matches LaunchState::Probing { port }
                &&& port == old(self).state->Spawning_port
            }),
            !ok ==> ({
                &&& final(self).state matches LaunchState::Failed { error }
                &&& error == (LaunchError::SpawnFailure { detail })
            }),
    {
        let port = match &self.state {
            LaunchState::Spawning { port } => *port,
            _ => unreached(),
        };
        if ok {
            self.state = LaunchState::Probing { port };
        } else {
            self.state = LaunchState::Failed {
                error: LaunchError::SpawnFailure { detail },
            };
        }
    }

    /// Record the readiness poll's verdict. A healthy answer makes the
    /// attempt ready. A poll that gave up ends the attempt with
    /// `ReadinessTimeout` -- and returns the one compensation duty of the
    /// whole flow: the already spawned child must be killed, so a failed
    /// launch never leaks a process.
    pub fn probe_finished(&mut self, ready: bool, attempts: u32, seconds: u64) -> (kill_child:
        bool)
        requires
            old(self).state is Probing,
        ensures
            kill_child == !ready,
            ready ==> ({
                &&& final(self).state matches LaunchState::Ready { port }
                &&& port == old(self).state->Probing_port
            }),
            !ready ==> ({
                &&& final(self).state matches LaunchState::Failed { error }
                &&& error == (LaunchError::ReadinessTimeout { attempts, seconds })
            }),
    {
        let port = match &self.state {
            LaunchState::Probing { port } => *port,
            _ => unreached(),
        };
        if ready {
            self.state = LaunchState::Ready { port };
            false
        } else {
            self.state = LaunchState::Failed {
                error: LaunchError::ReadinessTimeout { attempts, seconds },
            };
            true
        }
    }

    /// Conclude the attempt: a ready flow yields the live handle, with its
    /// base URL derived from the allocated port and the child attached; a
    /// failed flow yields its error.
    pub fn finish(self) -> (r: Result<PythonBackend, LaunchError>)
        requires
            self.state is Ready || self.state is Failed,
        ensures
            self.state matches LaunchState::Ready { port } ==> ({
                &&& r matches Ok(b)
                &&& b.wf()
                &&& b.has_process
                &&& b.port == port
            }),
            self.state matches LaunchState::Failed { error } ==> r == Err::<
                PythonBackend,
                LaunchError,
            >(error),
    {
        match self.state {
            LaunchState::Ready { port } => Ok(PythonBackend::new(port)),
            LaunchState::Failed { error } => Err(error),
            _ => unreached(),
        }
    }
}

} // verus!
