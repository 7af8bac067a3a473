use worker_unit::channel::ReceivePoll;
use worker_unit::channel::WorkerChannels;
use worker_unit::errors::ChannelError;
use worker_unit::worker::ScriptOutcome;
use worker_unit::worker::SessionState;
use worker_unit::worker::StepOutcome;
use worker_unit::worker::TaskPoll;
use worker_unit::worker::Worker;

fn create_test_worker() -> Worker {
    let channels = WorkerChannels::new();
    let state = SessionState::new(
        vec![String::from("./deno"), String::from("hello.js")],
        None,
    );
    Worker::new(String::from("TEST"), Some(Vec::new()), state, channels)
}

#[test]
fn test_worker_messages() {
    let mut worker = create_test_worker();

    let r = worker.post_message(b"\"hi\"".to_vec());
    assert!(r.is_ok());

    // the unit-side handler receives "hi" and answers with [1,2,3] serialized
    match worker.unit_receive() {
        ReceivePoll::Message(m) => assert_eq!(m, b"\"hi\"".to_vec()),
        _ => panic!("the unit should have received the posted message"),
    }
    let r = worker.unit_post(b"[1,2,3]".to_vec());
    assert!(r.is_ok());

    let recv = worker.get_message();
    let maybe_msg = recv.poll(&mut worker);
    assert!(matches!(maybe_msg, ReceivePoll::Message(_)));
    // Check if message received is [1, 2, 3] in json
    match maybe_msg {
        ReceivePoll::Message(m) => assert_eq!(&m[..], b"[1,2,3]"),
        _ => unreachable!(),
    }

    let r = worker.post_message(b"\"exit\"".to_vec());
    assert!(r.is_ok());
}

#[test]
fn removed_from_resource_table_on_close() {
    let mut worker = create_test_worker();

    let action = worker.execute("onmessage = () => { delete window.onmessage; }");
    assert!(action.is_ok());
    assert!(worker.finish_execution(ScriptOutcome::Completed).is_ok());

    let r = worker.post_message(b"\"hi\"".to_vec());
    assert!(r.is_ok());

    // the handler removed itself after one message: the unit drains its
    // inbox and drops its channel ends, then runs out of pending work
    assert!(matches!(worker.unit_receive(), ReceivePoll::Message(_)));
    worker.unit_close();
    let done = worker.poll(StepOutcome::Complete);
    assert!(matches!(done, TaskPoll::Ready(Ok(()))));
}

#[test]
fn messages_arrive_in_order_then_closed_once_drained() {
    let mut worker = create_test_worker();

    assert!(worker.unit_post(b"m1".to_vec()).is_ok());
    assert!(worker.unit_post(b"m2".to_vec()).is_ok());
    assert!(worker.unit_post(b"m3".to_vec()).is_ok());
    worker.unit_close();

    let expected: [&[u8]; 3] = [b"m1", b"m2", b"m3"];
    for want in expected {
        let recv = worker.get_message();
        match recv.poll(&mut worker) {
            ReceivePoll::Message(m) => assert_eq!(&m[..], want),
            other => panic!("expected a message, got {:?}", other),
        }
    }
    // end of stream is reported once drained, and on every later poll
    let recv = worker.get_message();
    assert_eq!(recv.poll(&mut worker), ReceivePoll::Closed);
    let recv = worker.get_message();
    assert_eq!(recv.poll(&mut worker), ReceivePoll::Closed);
}

#[test]
fn receive_is_pending_while_the_channel_is_open() {
    let mut worker = create_test_worker();
    let recv = worker.get_message();
    assert_eq!(recv.poll(&mut worker), ReceivePoll::Pending);
}

#[test]
fn post_after_unit_close_reports_closed() {
    let mut worker = create_test_worker();
    worker.unit_close();
    let r = worker.post_message(b"x".to_vec());
    assert_eq!(r, Err(ChannelError::Closed));
}
