use worker_unit::channel::ReceivePoll;
use worker_unit::channel::WorkerChannels;
use worker_unit::worker::CapabilityKind;
use worker_unit::worker::EngineAction;
use worker_unit::worker::ScriptOutcome;
use worker_unit::worker::SessionState;
use worker_unit::worker::StepOutcome;
use worker_unit::worker::TaskPoll;
use worker_unit::worker::Worker;

fn create_test_worker() -> Worker {
    let channels = WorkerChannels::new();
    let state = SessionState::new(
        vec![String::from("./deno"), String::from("hello.js")],
        None,
    );
    Worker::new(String::from("TEST"), Some(Vec::new()), state, channels)
}

#[test]
fn construction_registers_every_capability_once_in_order() {
    let w = create_test_worker();
    assert_eq!(w.name, "TEST");
    assert!(!w.failed);
    assert!(!w.completed);
    assert!(w.dyn_import_hook_installed);
    assert!(w.error_hook_installed);

    assert_eq!(w.capabilities.len(), 17);
    assert_eq!(w.capabilities[0], CapabilityKind::Compiler);
    assert_eq!(w.capabilities[16], CapabilityKind::Workers);
    for i in 0..w.capabilities.len() {
        for j in 0..w.capabilities.len() {
            if i != j {
                assert_ne!(w.capabilities[i], w.capabilities[j]);
            }
        }
    }
}

#[test]
fn unit_stays_usable_after_an_engine_exception() {
    let worker = create_test_worker();

    // "1+1" runs to completion
    let action = worker.execute("1+1");
    assert!(action.is_ok());
    assert!(worker.finish_execution(ScriptOutcome::Completed).is_ok());

    // "syntax {{{" makes the engine report an exception
    let action = worker.execute("syntax {{{");
    assert!(action.is_ok());
    let r = worker.finish_execution(ScriptOutcome::Exception(String::from(
        "SyntaxError: unexpected token",
    )));
    match r {
        Err(e) => assert_eq!(e.diagnostic, "SyntaxError: unexpected token"),
        Ok(()) => panic!("an exception must surface as an EngineError"),
    }

    // the unit remains usable for new source afterwards
    assert!(worker.execute("1+1").is_ok());
}

#[test]
fn execute_labels_source_anonymously_and_execute2_by_name() {
    let worker = create_test_worker();
    match worker.execute("a()").unwrap() {
        EngineAction::RunScript { label, source } => {
            assert_eq!(label, "__anonymous__");
            assert_eq!(source, "a()");
        }
        other => panic!("expected a script run, got {:?}", other),
    }
    match worker.execute2("file:///app.js", "b()").unwrap() {
        EngineAction::RunScript { label, source } => {
            assert_eq!(label, "file:///app.js");
            assert_eq!(source, "b()");
        }
        other => panic!("expected a script run, got {:?}", other),
    }
}

#[test]
fn poll_completion_is_monotonic() {
    let mut worker = create_test_worker();
    assert!(matches!(worker.poll(StepOutcome::Pending), TaskPoll::Pending));
    assert!(matches!(
        worker.poll(StepOutcome::Complete),
        TaskPoll::Ready(Ok(()))
    ));
    // once the engine reported no pending work, the unit stays complete
    assert!(matches!(
        worker.poll(StepOutcome::Pending),
        TaskPoll::Ready(Ok(()))
    ));
}

#[test]
fn failed_unit_rejects_requests_without_reentering_the_engine() {
    let mut worker = create_test_worker();
    match worker.poll(StepOutcome::Failed(String::from("boom"))) {
        TaskPoll::Ready(Err(e)) => assert_eq!(e.diagnostic, "boom"),
        other => panic!("expected the failure to surface, got {:?}", other),
    }
    let r = worker.execute("1+1");
    match r {
        Err(e) => assert_eq!(e.diagnostic, "engine permanently failed"),
        Ok(_) => panic!("a failed unit must reject execution"),
    }
    assert!(matches!(
        worker.poll(StepOutcome::Pending),
        TaskPoll::Ready(Err(_))
    ));
}

#[test]
fn units_do_not_share_engine_state() {
    let mut w1 = create_test_worker();
    let mut w2 = create_test_worker();

    // an exception and then a permanent failure in the first unit
    assert!(w1
        .finish_execution(ScriptOutcome::Exception(String::from("boom")))
        .is_err());
    assert!(matches!(
        w1.poll(StepOutcome::Failed(String::from("boom"))),
        TaskPoll::Ready(Err(_))
    ));
    assert!(w1.execute("1+1").is_err());

    // the second unit's engine and channels are untouched
    assert!(!w2.failed);
    assert!(w2.execute("1+1").is_ok());
    assert!(w2.post_message(b"ping".to_vec()).is_ok());
    assert!(matches!(w2.unit_receive(), ReceivePoll::Message(_)));
}
