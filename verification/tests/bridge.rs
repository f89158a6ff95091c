// The tests drive the bridge with the real channels, standing in for the
// worker thread on the test's own thread: commands are taken off the command
// channel in order and completed with a chosen engine outcome, so every path
// a caller can observe is exercised without the engine itself.

use script_bridge::bridge::{Bridge, CallError};
use script_bridge::protocol::{Command, Response};
use script_bridge::worker::Worker;

fn take_command(
    rx: &mut tokio::sync::mpsc::UnboundedReceiver<Command>,
) -> Command {
    rx.blocking_recv().expect("a command should be queued")
}

fn script_text(cmd: &Command) -> String {
    match cmd {
        Command::Execute { script, .. } => script.clone(),
    }
}

#[test]
fn test_runtime_creation() {
    let (_command_rx, _bridge) = Bridge::new();
    // Should not panic
}

#[test]
fn completed_script_call_succeeds() {
    let (mut command_rx, bridge) = Bridge::new();
    let mut worker = Worker::new();

    let pending = bridge.submit("1 + 1".to_string()).expect("worker is alive");
    let cmd = take_command(&mut command_rx);
    let (sent, delivered) = worker.handle(cmd, Ok(()));
    assert!(delivered);
    match sent {
        Response::Success(s) => assert_eq!(s, "executed"),
        Response::Error(e) => panic!("unexpected error: {e}"),
    }

    match pending.blocking_recv().expect("a reply was sent") {
        Response::Success(s) => assert_eq!(s, "executed"),
        Response::Error(e) => panic!("unexpected error: {e}"),
    }
}

#[test]
fn thrown_script_fails_with_message() {
    let (mut command_rx, bridge) = Bridge::new();
    let mut worker = Worker::new();

    let pending = bridge
        .submit("throw new Error('boom')".to_string())
        .expect("worker is alive");
    let cmd = take_command(&mut command_rx);
    let (_, delivered) = worker.handle(cmd, Err("Uncaught Error: boom".to_string()));
    assert!(delivered);

    match pending.blocking_recv().expect("a reply was sent") {
        Response::Error(text) => {
            assert_eq!(text, "JavaScript Error: Uncaught Error: boom");
            assert!(text.contains("boom"));
        }
        Response::Success(_) => panic!("the thrown script must not succeed"),
    }

    // A script failure never brings the worker loop down.
    assert!(worker.is_live());
}

#[test]
fn fifo_order_of_two_submissions() {
    let (mut command_rx, bridge) = Bridge::new();
    let mut worker = Worker::new();

    let pending_a = bridge.submit("var x = 42".to_string()).expect("worker is alive");
    let pending_b = bridge.submit("x * 2".to_string()).expect("worker is alive");

    let first = take_command(&mut command_rx);
    assert_eq!(script_text(&first), "var x = 42");
    let (_, delivered_a) = worker.handle(first, Ok(()));
    assert!(delivered_a);

    let second = take_command(&mut command_rx);
    assert_eq!(script_text(&second), "x * 2");
    let (_, delivered_b) = worker.handle(second, Ok(()));
    assert!(delivered_b);

    assert!(matches!(
        pending_a.blocking_recv().expect("first reply"),
        Response::Success(_)
    ));
    assert!(matches!(
        pending_b.blocking_recv().expect("second reply"),
        Response::Success(_)
    ));
}

#[test]
fn duplicated_handles_share_one_queue() {
    let (mut command_rx, bridge) = Bridge::new();
    let second_caller = bridge.duplicate();

    let _pending_a = bridge.submit("a".to_string()).expect("worker is alive");
    let _pending_b = second_caller.submit("b".to_string()).expect("worker is alive");

    assert_eq!(script_text(&take_command(&mut command_rx)), "a");
    assert_eq!(script_text(&take_command(&mut command_rx)), "b");
}

#[test]
fn abandoned_reply_is_discarded_silently() {
    let (mut command_rx, bridge) = Bridge::new();
    let mut worker = Worker::new();

    let pending = bridge.submit("1 + 1".to_string()).expect("worker is alive");
    drop(pending);

    let cmd = take_command(&mut command_rx);
    let (sent, delivered) = worker.handle(cmd, Ok(()));
    assert!(!delivered);
    assert!(matches!(sent, Response::Success(_)));
    // The abandoned caller cost the worker nothing.
    assert!(worker.is_live());
}

#[test]
fn submit_after_worker_termination_fails_immediately() {
    let (command_rx, bridge) = Bridge::new();
    drop(command_rx);

    match bridge.submit("1 + 1".to_string()) {
        Err(CallError::RuntimeTerminated) => {}
        Err(_) => panic!("the failure must be the runtime-terminated condition"),
        Ok(_) => panic!("submission must fail once the worker is gone"),
    }
}

#[test]
fn call_blocking_after_worker_termination_fails_immediately() {
    let (command_rx, bridge) = Bridge::new();
    drop(command_rx);

    match bridge.call_blocking("1 + 1".to_string()) {
        Err(e) => {
            assert!(matches!(e, CallError::RuntimeTerminated));
            assert_eq!(e.message(), "Runtime thread has terminated");
        }
        Ok(_) => panic!("the call must fail once the worker is gone"),
    }
}

#[test]
fn dropping_every_handle_terminates_the_worker() {
    let (mut command_rx, bridge) = Bridge::new();
    let extra_handle = bridge.duplicate();
    let mut worker = Worker::new();

    drop(bridge);
    drop(extra_handle);

    // With every sender gone and no pending command, the queue reports
    // closure; the worker observes it and stops.
    assert!(command_rx.blocking_recv().is_none());
    worker.on_closed();
    assert!(!worker.is_live());
}
