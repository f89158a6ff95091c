//! The worker's decision logic, with the engine kept abstract.
//!
//! The dedicated worker thread owns the one engine instance and loops:
//! dequeue a command, run its script to completion, classify the outcome,
//! deliver exactly one response, and stop once the command channel has
//! closed. The engine run itself is opaque outside work; everything the
//! worker decides around it stands here. A `Worker` carries a ghost history
//! of the scripts executed so far, in order: the engine's global state is a
//! function of that history, so its contracts state that the history only
//! ever grows — state persists across calls, commands are appended strictly
//! in the order they are handled, and channel closure stops the worker
//! without touching what was executed.

use vstd::prelude::*;
use crate::channel::send_reply;
use crate::protocol::{classified, classify, script_of, Command, Response};

verus! {

/// The worker loop's state: whether it is still accepting commands, and the
/// ghost record of every script executed so far, oldest first.
pub struct Worker {
    live: bool,
    history: Ghost<Seq<Seq<char>>>,
}

impl Worker {
    /// The scripts this worker has executed, in execution order.
    pub closed spec fn executed(&self) -> Seq<Seq<char>> {
        self.history@
    }

    /// Whether the worker is still accepting commands.
    pub closed spec fn is_running(&self) -> bool {
        self.live
    }

    /// A fresh worker: running, nothing executed yet.
    pub fn new() -> (w: Worker)
        ensures
            w.is_running(),
            w.executed() == Seq::<Seq<char>>::empty(),
    {
        Worker { live: true, history: Ghost(Seq::empty()) }
    }

    /// Whether the worker is still accepting commands.
    pub fn is_live(&self) -> (r: bool)
        ensures
            r == self.is_running(),
    {
        self.live
    }

    /// Handle one dequeued command whose script the engine has just run with
    /// outcome `outcome`: classify the outcome, deliver the response on the
    /// command's reply handle — silently discarded if the caller abandoned
    /// it, reported in the second component otherwise — and record the
    /// script. The response returned is the very value delivered, the
    /// history grows by exactly this command's script, and the worker keeps
    /// running: a script failure never brings the loop down.
    pub fn handle(&mut self, cmd: Command, outcome: Result<(), String>) -> (r: (Response, bool))
        requires
            old(self).is_running(),
        ensures
            final(self).is_running(),
            final(self).executed() == old(self).executed().push(script_of(cmd)),
            classified(outcome, r.0),
    {
        let ghost script_view = script_of(cmd);
        let Command::Execute { script: _, reply } = cmd;
        let resp = classify(outcome);
        let out = resp.duplicate();
        let delivered = match send_reply(reply, resp) {
            Ok(_) => true,
            Err(_) => false,
        };
        proof {
            self.history@ = self.history@.push(script_view);
        }
        (out, delivered)
    }

    /// The command channel has closed: every bridge handle was dropped. The
    /// worker stops accepting commands; what was executed stays as it is,
    /// and the engine instance can now be released.
    pub fn on_closed(&mut self)
        ensures
            !final(self).is_running(),
            final(self).executed() == old(self).executed(),
    {
        self.live = false;
    }
}

} // verus!
