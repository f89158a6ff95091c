//! The two channels the bridge is built on, taken from tokio and trusted.
//!
//! The command channel is an unbounded multi-producer/single-consumer queue
//! from any caller to the worker; a reply channel is a single-use one-shot
//! pairing one command with its one response. Each wrapper below relies on
//! the named tokio function; Verus believes the stated contract and verifies
//! the rest of the library against it. Receiving on the command channel is
//! an awaiting loop and stays in the embedding layer.

use vstd::prelude::*;
use crate::protocol::{Command, Response};

verus! {

#[verifier::external_type_specification]
#[verifier::external_body]
#[verifier::reject_recursive_types(T)]
pub struct ExUnboundedSender<T>(tokio::sync::mpsc::UnboundedSender<T>);

#[verifier::external_type_specification]
#[verifier::external_body]
#[verifier::reject_recursive_types(T)]
pub struct ExUnboundedReceiver<T>(tokio::sync::mpsc::UnboundedReceiver<T>);

#[verifier::external_type_specification]
#[verifier::external_body]
#[verifier::reject_recursive_types(T)]
pub struct ExOneshotSender<T>(tokio::sync::oneshot::Sender<T>);

#[verifier::external_type_specification]
#[verifier::external_body]
#[verifier::reject_recursive_types(T)]
pub struct ExOneshotReceiver<T>(tokio::sync::oneshot::Receiver<T>);

#[verifier::external_type_specification]
#[verifier::external_body]
pub struct ExRecvError(tokio::sync::oneshot::error::RecvError);

/// Relies on tokio::sync::mpsc::unbounded_channel: returns the connected
/// sending and receiving halves of a fresh unbounded FIFO queue.
#[verifier::external_body]
pub(crate) fn new_command_channel() -> (
    tokio::sync::mpsc::UnboundedSender<Command>,
    tokio::sync::mpsc::UnboundedReceiver<Command>,
)
{
    tokio::sync::mpsc::unbounded_channel()
}

/// Relies on tokio::sync::mpsc::UnboundedSender::clone: another sending
/// handle onto the same queue.
#[verifier::external_body]
pub(crate) fn clone_command_sender(
    tx: &tokio::sync::mpsc::UnboundedSender<Command>,
) -> tokio::sync::mpsc::UnboundedSender<Command>
{
    tx.clone()
}

/// Relies on tokio::sync::mpsc::UnboundedSender::send: enqueues the message
/// unless the receiving half has been dropped or closed, in which case the
/// very message comes back as the error.
#[verifier::external_body]
pub(crate) fn send_command(
    tx: &tokio::sync::mpsc::UnboundedSender<Command>,
    cmd: Command,
) -> (r: Result<(), Command>)
    ensures
        r matches Err(c) ==> c == cmd,
{
    tx.send(cmd).map_err(|e| e.0)
}

/// Relies on tokio::sync::oneshot::channel: returns the connected sending and
/// receiving halves of a fresh single-use reply channel.
#[verifier::external_body]
pub(crate) fn new_reply_channel() -> (
    tokio::sync::oneshot::Sender<Response>,
    tokio::sync::oneshot::Receiver<Response>,
)
{
    tokio::sync::oneshot::channel()
}

/// Relies on tokio::sync::oneshot::Sender::send: delivers the value to the
/// waiting receiver, or — if the receiver was already dropped — hands the
/// very value back and has no other effect.
#[verifier::external_body]
pub(crate) fn send_reply(
    tx: tokio::sync::oneshot::Sender<Response>,
    resp: Response,
) -> (r: Result<(), Response>)
    ensures
        r matches Err(x) ==> x == resp,
{
    tx.send(resp)
}

/// Relies on tokio::sync::oneshot::Receiver::blocking_recv: blocks the
/// calling thread until the sender sends a value or is dropped without one.
/// Must not be called from inside an asynchronous runtime; the asynchronous
/// embedding awaits the receiver instead.
#[verifier::external_body]
pub(crate) fn wait_reply(rx: tokio::sync::oneshot::Receiver<Response>) -> Option<Response>
{
    rx.blocking_recv().ok()
}

} // verus!
