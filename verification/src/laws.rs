//! What holds of the bridge as a whole, stated and proved.
//!
//! Each law below relates the contracts of several library functions: how a
//! completed script becomes a successful call, how a thrown message survives
//! into the failure text, how one worker's execution history orders and
//! keeps every script, and how the per-call state machine pins down call
//! resolution and never leaves a terminal state.

use vstd::prelude::*;
use crate::bridge::{call_step, is_terminal, message_of, settled, terminated_text, CallError,
    CallEvent, CallState};
use crate::protocol::{classified, error_prefix, success_text, Response};
use crate::worker::Worker;

verus! {

/// `needle` occurs somewhere in `hay` as a contiguous run.
pub open spec fn contains_seq(hay: Seq<char>, needle: Seq<char>) -> bool {
    exists|i: int|
        0 <= i && i + needle.len() <= hay.len() && #[trigger] hay.subrange(i, i + needle.len())
            == needle
}

/// A concatenation contains its second part.
pub proof fn lemma_concat_contains_suffix(a: Seq<char>, b: Seq<char>)
    ensures
        contains_seq(a + b, b),
{
    assert((a + b).subrange(a.len() as int, a.len() as int + b.len() as int) =~= b);
}

/// A script that completes without throwing makes its call succeed: the
/// worker classifies the completion, the reply resolves to `Ok`, and the
/// result carries the success marker. Each call resolves from its own reply
/// alone, so this holds however many unrelated calls are in flight.
pub proof fn lemma_completed_script_succeeds(resp: Response, r: Result<String, CallError>)
    requires
        classified(Result::<(), String>::Ok(()), resp),
        settled(Option::Some(resp), r),
    ensures
        r matches Ok(t) && t@ == success_text(),
{
}

/// A script that throws with diagnostic `m` makes its call fail, and the
/// failure text contains `m` in full: the worker prefixes `m` unchanged, and
/// the reply resolves to a script failure carrying that very text.
pub proof fn lemma_thrown_message_in_failure_text(
    m: String,
    resp: Response,
    r: Result<String, CallError>,
)
    requires
        classified(Result::<(), String>::Err(m), resp),
        settled(Option::Some(resp), r),
    ensures
        r matches Err(e) && e matches CallError::Script(t) && t@ == error_prefix() + m@,
        r matches Err(e) && contains_seq(message_of(e), m@),
{
    lemma_concat_contains_suffix(error_prefix(), m@);
}

/// One worker, two commands handled in order: the first script is already in
/// the execution history when the second runs, and afterwards both stand in
/// the history in submission order, after everything executed before them —
/// strict FIFO, nothing discarded, no reset between calls.
pub proof fn lemma_fifo_two_commands(
    w0: Worker,
    w1: Worker,
    w2: Worker,
    a: Seq<char>,
    b: Seq<char>,
)
    requires
        w1.executed() == w0.executed().push(a),
        w2.executed() == w1.executed().push(b),
    ensures
        w1.executed().contains(a),
        w2.executed() == w0.executed() + seq![a, b],
        w2.executed()[w0.executed().len() as int] == a,
        w2.executed().last() == b,
        w0.executed().len() < w1.executed().len() < w2.executed().len(),
{
    assert(w1.executed()[w0.executed().len() as int] == a);
    assert(w2.executed() =~= w0.executed() + seq![a, b]);
}

/// Resolving a sent call follows the per-call state machine exactly: the
/// reply that arrived — or the abandonment of the reply channel — steps
/// `Sent` to precisely the terminal state that the resolved outcome denotes.
pub proof fn lemma_settle_follows_call_machine(
    reply: Option<Response>,
    r: Result<String, CallError>,
)
    requires
        settled(reply, r),
    ensures
        call_step(CallState::Sent, event_of_reply(reply)) == state_of_outcome(r),
        is_terminal(state_of_outcome(r)),
{
}

/// A refused enqueue steps a created call straight to the terminal
/// runtime-terminated failure: it never becomes `Sent`, so nothing is ever
/// awaited for it.
pub proof fn lemma_refused_enqueue_is_terminal()
    ensures
        call_step(CallState::Created, CallEvent::EnqueueRefused) == CallState::Failed(
            CallError::RuntimeTerminated,
        ),
        is_terminal(CallState::Failed(CallError::RuntimeTerminated)),
{
}

/// Terminal call states are final: no event moves a finished call, so every
/// call terminates with exactly one outcome.
pub proof fn lemma_terminal_states_final(s: CallState, ev: CallEvent)
    requires
        is_terminal(s),
    ensures
        call_step(s, ev) == s,
{
}

/// The failure reported when the worker has already terminated carries the
/// fixed runtime-terminated diagnostic, and that text names the terminated
/// runtime.
pub proof fn lemma_terminated_failure_text()
    ensures
        message_of(CallError::RuntimeTerminated) == terminated_text(),
        contains_seq(terminated_text(), "terminated"@),
{
    reveal_strlit("Runtime thread has terminated");
    reveal_strlit("terminated");
    let hay: Seq<char> = terminated_text();
    let needle: Seq<char> = "terminated"@;
    assert(hay.subrange(19, 19 + needle.len() as int) =~= needle);
}

/// The event a reply-channel outcome presents to the per-call state machine.
pub open spec fn event_of_reply(reply: Option<Response>) -> CallEvent {
    match reply {
        Option::None => CallEvent::ChannelAbandoned,
        Option::Some(resp) => CallEvent::Reply(resp),
    }
}

/// The call state a resolved outcome denotes.
pub open spec fn state_of_outcome(r: Result<String, CallError>) -> CallState {
    match r {
        Ok(_) => CallState::Succeeded,
        Err(e) => CallState::Failed(e),
    }
}

} // verus!
