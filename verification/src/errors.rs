use vstd::prelude::*;

verus! {

/// Every failure the hub reports.
///
/// `DatabaseError` is a storage (repository) failure, `JsonError` a malformed
/// structured value, `NotFoundError` a missing referenced entity,
/// `RuleEngineError` a failure of the external decision engine.
/// `ScriptLaunchError`, `ScriptResourceExceeded` and `ScriptOutputError`
/// distinguish the three ways a sandboxed script run can fail: the process
/// could not be started, it was killed for exceeding a resource ceiling, or
/// its captured output was not valid JSON.  `ConfigurationError` rejects
/// invalid settings such as a zero polling interval.
#[derive(Debug, Clone, PartialEq, Eq)]
pub enum Error {
    DatabaseError(String),
    JsonError(String),
    NotFoundError(String),
    RuleEngineError(String),
    ScriptLaunchError(String),
    ScriptResourceExceeded,
    ScriptOutputError(String),
    ConfigurationError(String),
}

} // verus!
