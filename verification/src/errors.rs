//! The launch failure taxonomy: every way bringing the backend up or down
//! can fail, each with an actionable message that names the phase and keeps
//! the underlying error text.

use vstd::prelude::*;

use crate::decimal::{dec_seq, u16_to_decimal, u32_to_decimal, u64_to_decimal};

verus! {

/// Why a launch (or a shutdown) failed. Every variant is fatal to the
/// attempt; none is retried.
#[derive(Debug, PartialEq, Eq)]
pub enum LaunchError {
    /// No port in the scanned inclusive range could be bound.
    PortExhausted { start: u16, end: u16 },
    /// The executable path, working directory or another required launch
    /// parameter could not be resolved; nothing was spawned.
    ConfigurationError { detail: String },
    /// The operating system failed to create the child process.
    SpawnFailure { detail: String },
    /// The child was spawned but never answered healthy within the attempt
    /// budget; the supervisor kills the unhealthy child before reporting it.
    ReadinessTimeout { attempts: u32, seconds: u64 },
    /// Signalling, killing or reaping the child failed at the OS level; the
    /// supervisor still considers the process abandoned and itself stopped.
    ShutdownFailure { detail: String },
}

/// The human-readable message of each failure: the phase that failed and the
/// underlying detail.
pub open spec fn spec_message(e: LaunchError) -> Seq<char> {
    match e {
        LaunchError::PortExhausted { start, end } => "No available ports found in range "@
            + dec_seq(start as int) + "-"@ + dec_seq(end as int),
        LaunchError::ConfigurationError { detail } => "Configuration error: "@ + detail@,
        LaunchError::SpawnFailure { detail } => "Failed to spawn Python backend process: "@
            + detail@,
        LaunchError::ReadinessTimeout { attempts, seconds } =>
            "Python backend failed to become ready after "@ + dec_seq(attempts as int)
            + " attempts ("@ + dec_seq(seconds as int) + " seconds)"@,
        LaunchError::ShutdownFailure { detail } => "Failed to shut down Python backend: "@
            + detail@,
    }
}

impl LaunchError {
    /// Render the failure as its message.
    pub fn message(&self) -> (r: String)
        ensures
            r@ == spec_message(*self),
    {
        match self {
            LaunchError::PortExhausted { start, end } => {
                let mut r = String::new();
                r.append("No available ports found in range ");
                let start_digits = u16_to_decimal(*start);
                r.append(start_digits.as_str());
                r.append("-");
                let end_digits = u16_to_decimal(*end);
                r.append(end_digits.as_str());
                proof {
                    assert(r@ =~= spec_message(*self));
                }
                r
            },
            LaunchError::ConfigurationError { detail } => {
                let mut r = String::new();
                r.append("Configuration error: ");
                r.append(detail.as_str());
                proof {
                    assert(r@ =~= spec_message(*self));
                }
                r
            },
            LaunchError::SpawnFailure { detail } => {
                let mut r = String::new();
                r.append("Failed to spawn Python backend process: ");
                r.append(detail.as_str());
                proof {
                    assert(r@ =~= spec_message(*self));
                }
                r
            },
            LaunchError::ReadinessTimeout { attempts, seconds } => {
                let mut r = String::new();
                r.append("Python backend failed to become ready after ");
                let attempt_digits = u32_to_decimal(*attempts);
                r.append(attempt_digits.as_str());
                r.append(" attempts (");
                let second_digits = u64_to_decimal(*seconds);
                r.append(second_digits.as_str());
                r.append(" seconds)");
                proof {
                    assert(r@ =~= spec_message(*self));
                }
                r
            },
            LaunchError::ShutdownFailure { detail } => {
                let mut r = String::new();
                r.append("Failed to shut down Python backend: ");
                r.append(detail.as_str());
                proof {
                    assert(r@ =~= spec_message(*self));
                }
                r
            },
        }
    }
}

} // verus!
