//! The command/reply protocol between the bridge and the worker.
//!
//! A `Response` reports how one script execution went: normal completion, or
//! an uncaught error together with a formatted diagnostic. `classify` turns
//! the raw engine outcome into the one `Response` the caller will see.

use vstd::prelude::*;
use vstd::string::StringExecFns;

verus! {

/// The worker's answer to one executed script: either a success marker, or a
/// human-readable diagnostic for a thrown/uncaught error. No script value is
/// ever extracted; success carries only the fixed marker text.
pub enum Response {
    Success(String),
    Error(String),
}

/// One request to the worker: execute `script` against the engine and answer
/// on `reply`. The reply handle is owned by the command and consumed exactly
/// once, so every accepted command yields at most one response.
pub enum Command {
    Execute { script: String, reply: tokio::sync::oneshot::Sender<Response> },
}

/// The script text a command carries.
pub open spec fn script_of(cmd: Command) -> Seq<char> {
    match cmd {
        Command::Execute { script, .. } => script@,
    }
}

/// The fixed marker text carried by every successful response.
pub open spec fn success_text() -> Seq<char> {
    "executed"@
}

/// The prefix put before the engine's own diagnostic in every error response.
pub open spec fn error_prefix() -> Seq<char> {
    "JavaScript Error: "@
}

/// How an engine outcome must be classified: normal completion becomes
/// `Success` with the fixed marker; an error with diagnostic `m` becomes
/// `Error` whose text is the fixed prefix followed by `m`, unchanged.
pub open spec fn classified(outcome: Result<(), String>, r: Response) -> bool {
    match (outcome, r) {
        (Ok(_), Response::Success(s)) => s@ == success_text(),
        (Err(m), Response::Error(t)) => t@ == error_prefix() + m@,
        _ => false,
    }
}

/// Turn the raw outcome of one script execution into the response sent back
/// to the caller. This is the whole classification step of the worker loop.
pub fn classify(outcome: Result<(), String>) -> (r: Response)
    ensures
        classified(outcome, r),
{
    match outcome {
        Ok(_) => Response::Success(String::from_str("executed")),
        Err(m) => Response::Error(String::from_str("JavaScript Error: ").concat(m.as_str())),
    }
}

impl Response {
    /// An equal copy, so the worker can both deliver a response and report
    /// what it delivered.
    pub fn duplicate(&self) -> (r: Response)
        ensures
            r == *self,
    {
        match self {
            Response::Success(s) => Response::Success(s.clone()),
            Response::Error(m) => Response::Error(m.clone()),
        }
    }
}

} // verus!
