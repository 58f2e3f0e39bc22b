//! The sandboxed script runner's verified logic.
//!
//! A transformation script runs in an isolated child process; the embedder
//! spawns it, polls its resource usage at a short fixed tick, and captures
//! its standard output.  The decisions stand here, verified: when the
//! supervising loop must kill the process ([`supervise_tick`]) and what the
//! run's outcome is ([`interpret_script_run`]) — a launch failure, a
//! resource-limit kill, malformed output, or the parsed JSON payload.  The
//! script text itself goes through sanitation
//! ([`crate::script_sanitizer::clean_python_script`]) before it is handed to
//! the child process.

use crate::errors::Error;
use crate::json::json_value_of;
use crate::json::try_parse_json;
use vstd::prelude::*;
use vstd::string::StringExecFns;

verus! {

/// Default resident-memory ceiling for a script process: 1 GiB.
pub const DEFAULT_MEMORY_LIMIT_BYTES: u64 = 1024 * 1024 * 1024;

/// Default wall-clock ceiling for a script process: 30 s.
pub const DEFAULT_TIME_LIMIT_SECS: u64 = 30;

/// The resource ceilings one script run is held to.
#[derive(Clone, Copy, Debug, PartialEq, Eq, Structural)]
pub struct ResourceLimits {
    pub memory_limit_bytes: u64,
    pub time_limit_secs: u64,
}

impl Default for ResourceLimits {
    /// The default ceilings: 1 GiB of resident memory, 30 s of wall-clock
    /// time.
    fn default() -> (r: Self)
        ensures
            r.memory_limit_bytes == DEFAULT_MEMORY_LIMIT_BYTES,
            r.time_limit_secs == DEFAULT_TIME_LIMIT_SECS,
    {
        ResourceLimits {
            memory_limit_bytes: DEFAULT_MEMORY_LIMIT_BYTES,
            time_limit_secs: DEFAULT_TIME_LIMIT_SECS,
        }
    }
}

/// What the supervising loop must do after one observation of the script
/// process.
#[derive(Clone, Copy, Debug, PartialEq, Eq, Structural)]
pub enum SupervisorVerdict {
    Continue,
    KillMemoryExceeded,
    KillTimeExceeded,
    Finished,
}

/// One tick of the resource supervisor: once the process is no longer
/// observable the loop is over; a process over the memory ceiling is killed
/// (checked first), one over the time ceiling is killed, and otherwise the
/// loop goes on to its next tick.
pub fn supervise_tick(
    process_alive: bool,
    memory_bytes: u64,
    elapsed_secs: u64,
    limits: &ResourceLimits,
) -> (r: SupervisorVerdict)
    ensures
        !process_alive ==> r is Finished,
        process_alive && memory_bytes > limits.memory_limit_bytes ==> r is KillMemoryExceeded,
        process_alive && memory_bytes <= limits.memory_limit_bytes && elapsed_secs
            > limits.time_limit_secs ==> r is KillTimeExceeded,
        process_alive && memory_bytes <= limits.memory_limit_bytes && elapsed_secs
            <= limits.time_limit_secs ==> r is Continue,
{
    if !process_alive {
        SupervisorVerdict::Finished
    } else if memory_bytes > limits.memory_limit_bytes {
        SupervisorVerdict::KillMemoryExceeded
    } else if elapsed_secs > limits.time_limit_secs {
        SupervisorVerdict::KillTimeExceeded
    } else {
        SupervisorVerdict::Continue
    }
}

/// The outcome of one sandboxed run, from what the embedder observed: a
/// process that could not be launched is a `ScriptLaunchError`; one killed
/// for exceeding a resource ceiling is a `ScriptResourceExceeded` — never
/// mistaken for an output problem; otherwise the captured standard output is
/// parsed as JSON, and output that is not well-formed JSON is a
/// `ScriptOutputError`.
pub fn interpret_script_run(launched: bool, killed: bool, stdout: &str) -> (r: Result<
    serde_json::Value,
    Error,
>)
    ensures
        !launched ==> match r {
            Ok(_) => false,
            Err(e) => e is ScriptLaunchError,
        },
        launched && killed ==> r == Err::<serde_json::Value, Error>(Error::ScriptResourceExceeded),
        launched && !killed ==> match json_value_of(stdout@) {
            Some(v) => r == Ok::<serde_json::Value, Error>(v),
            None => match r {
                Ok(_) => false,
                Err(e) => e is ScriptOutputError,
            },
        },
{
    if !launched {
        return Err(Error::ScriptLaunchError(String::from_str("could not start script process")));
    }
    if killed {
        return Err(Error::ScriptResourceExceeded);
    }
    match try_parse_json(stdout) {
        Some(v) => Ok(v),
        None => Err(Error::ScriptOutputError(String::from_str("script output is not valid JSON"))),
    }
}

} // verus!
