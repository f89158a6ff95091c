//! The caller-facing facade.
//!
//! A `Bridge` holds one cloneable sending handle into the command channel and
//! never touches the engine itself. `submit` enqueues one command and hands
//! back the paired reply receiver; `settle` resolves what the reply channel
//! yielded into the one outcome the caller sees. Every call follows the
//! per-call state machine `call_step`: Created, then Sent, then exactly one
//! terminal state, and no terminal state is ever left again.

use vstd::prelude::*;
use vstd::string::StringExecFns;
use crate::channel::{clone_command_sender, new_command_channel, new_reply_channel, send_command,
    wait_reply};
use crate::protocol::{Command, Response};

verus! {

/// Why a call failed.
///
/// `RuntimeTerminated`: the command could not even be enqueued because the
/// worker is gone. `NoResponse`: the command was enqueued but its reply
/// channel closed without a response, so the worker died mid-flight.
/// `Script`: the script itself threw; the diagnostic is carried verbatim.
#[derive(Debug)]
pub enum CallError {
    RuntimeTerminated,
    NoResponse,
    Script(String),
}

/// The diagnostic shown when the worker has already terminated.
pub open spec fn terminated_text() -> Seq<char> {
    "Runtime thread has terminated"@
}

/// The diagnostic shown when the reply channel closed without a response.
pub open spec fn no_response_text() -> Seq<char> {
    "Failed to receive response from runtime"@
}

/// The text each failure carries.
pub open spec fn message_of(e: CallError) -> Seq<char> {
    match e {
        CallError::RuntimeTerminated => terminated_text(),
        CallError::NoResponse => no_response_text(),
        CallError::Script(m) => m@,
    }
}

impl CallError {
    /// The human-readable text of this failure.
    pub fn message(&self) -> (r: String)
        ensures
            r@ == message_of(*self),
    {
        match self {
            CallError::RuntimeTerminated => String::from_str("Runtime thread has terminated"),
            CallError::NoResponse => String::from_str("Failed to receive response from runtime"),
            CallError::Script(m) => m.clone(),
        }
    }
}

/// How what the reply channel yielded must resolve: a response that arrived
/// is passed through — success text on success, the diagnostic as a `Script`
/// failure on error — and a reply channel that closed without a response
/// resolves to `NoResponse`.
pub open spec fn settled(reply: Option<Response>, r: Result<String, CallError>) -> bool {
    match reply {
        Option::None => r == Result::<String, CallError>::Err(CallError::NoResponse),
        Option::Some(Response::Success(s)) => r == Result::<String, CallError>::Ok(s),
        Option::Some(Response::Error(m)) => r == Result::<String, CallError>::Err(
            CallError::Script(m),
        ),
    }
}

/// Resolve what the reply channel yielded (`None` when it closed without a
/// response) into the caller's outcome.
pub fn settle(reply: Option<Response>) -> (r: Result<String, CallError>)
    ensures
        settled(reply, r),
{
    match reply {
        None => Err(CallError::NoResponse),
        Some(Response::Success(s)) => Ok(s),
        Some(Response::Error(m)) => Err(CallError::Script(m)),
    }
}

/// The states one call passes through.
pub enum CallState {
    Created,
    Sent,
    Succeeded,
    Failed(CallError),
}

/// What can happen to a call in flight.
pub enum CallEvent {
    Enqueued,
    EnqueueRefused,
    Reply(Response),
    ChannelAbandoned,
}

/// A call state from which no transition leaves.
pub open spec fn is_terminal(s: CallState) -> bool {
    match s {
        CallState::Created => false,
        CallState::Sent => false,
        CallState::Succeeded => true,
        CallState::Failed(_) => true,
    }
}

/// The per-call state machine: a created call is either enqueued or refused
/// outright; a sent call is resolved by its one reply, or fails when the
/// reply channel is abandoned. Any other event changes nothing.
pub open spec fn call_step(s: CallState, ev: CallEvent) -> CallState {
    match (s, ev) {
        (CallState::Created, CallEvent::Enqueued) => CallState::Sent,
        (CallState::Created, CallEvent::EnqueueRefused) => CallState::Failed(
            CallError::RuntimeTerminated,
        ),
        (CallState::Sent, CallEvent::Reply(Response::Success(_))) => CallState::Succeeded,
        (CallState::Sent, CallEvent::Reply(Response::Error(m))) => CallState::Failed(
            CallError::Script(m),
        ),
        (CallState::Sent, CallEvent::ChannelAbandoned) => CallState::Failed(CallError::NoResponse),
        (s2, _) => s2,
    }
}

/// The caller's handle: one sending half of the shared command channel.
pub struct Bridge {
    tx: tokio::sync::mpsc::UnboundedSender<Command>,
}

impl Bridge {
    /// A fresh bridge together with the receiving half of its command
    /// channel. The embedding layer hands that half to the dedicated worker
    /// thread; the bridge itself never sees the engine.
    pub fn new() -> (tokio::sync::mpsc::UnboundedReceiver<Command>, Bridge) {
        let (tx, rx) = new_command_channel();
        (rx, Bridge { tx })
    }

    /// Another handle onto the same command channel, for another caller.
    pub fn duplicate(&self) -> Bridge {
        Bridge { tx: clone_command_sender(&self.tx) }
    }

    /// Enqueue one script for execution and hand back the receiver on which
    /// its one response will arrive. Fails immediately — with the
    /// runtime-terminated condition and nothing enqueued to wait on — exactly
    /// when the worker has already terminated and the queue refuses the
    /// command.
    pub fn submit(&self, code: String) -> (r: Result<
        tokio::sync::oneshot::Receiver<Response>,
        CallError,
    >)
        ensures
            r matches Err(e) ==> e == CallError::RuntimeTerminated,
    {
        let (reply_tx, reply_rx) = new_reply_channel();
        match send_command(&self.tx, Command::Execute { script: code, reply: reply_tx }) {
            Ok(_) => Ok(reply_rx),
            Err(_) => Err(CallError::RuntimeTerminated),
        }
    }

    /// The blocking variant of the call operation: submit the script, then
    /// block this thread until its response arrives, and resolve it. Must run
    /// on a thread distinct from any shared executor that drives the reply;
    /// the asynchronous embedding awaits the receiver instead. Whatever the
    /// worker did, the outcome is either the immediate runtime-terminated
    /// failure or the resolution of what the reply channel yielded.
    pub fn call_blocking(&self, code: String) -> (r: Result<String, CallError>)
        ensures
            r == Result::<String, CallError>::Err(CallError::RuntimeTerminated) || (exists|
                reply: Option<Response>,
            | settled(reply, r)),
    {
        match self.submit(code) {
            Err(e) => Err(e),
            Ok(reply_rx) => {
                let reply = wait_reply(reply_rx);
                settle(reply)
            },
        }
    }
}

} // verus!
