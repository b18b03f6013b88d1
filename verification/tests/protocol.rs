use healer::codec::encode_frame;
use healer::exec::{Agent, AgentStep, ExecResult, Monitor};

#[test]
fn timeout_with_no_samples_is_the_timeout_error() {
    let m = Monitor::new();
    match m.on_timeout() {
        ExecResult::Failed(e) => assert_eq!(e.0, "Time out"),
        ExecResult::Success(_) => panic!("a run without samples must time out as an error"),
    }
}

#[test]
fn timeout_after_progress_is_a_partial_success() {
    let mut m = Monitor::new();
    let frame = encode_frame(&vec![10, 20]);
    assert_eq!(m.on_frame(&frame), Ok(()));
    match m.on_timeout() {
        ExecResult::Success(covs) => assert_eq!(covs, vec![vec![10, 20]]),
        ExecResult::Failed(_) => panic!("collected samples must take precedence over the timeout"),
    }
}

#[test]
fn error_text_is_surfaced_only_without_progress() {
    let m = Monitor::new();
    match m.on_error_channel("guest exploded".to_string()) {
        ExecResult::Failed(e) => assert_eq!(e.0, "guest exploded"),
        ExecResult::Success(_) => panic!("no sample was collected"),
    }
}

#[test]
fn error_text_is_discarded_after_progress() {
    let mut m = Monitor::new();
    assert_eq!(m.on_frame(&encode_frame(&vec![1])), Ok(()));
    assert_eq!(m.on_frame(&encode_frame(&vec![2, 3])), Ok(()));
    match m.on_error_channel("late diagnostics".to_string()) {
        ExecResult::Success(covs) => assert_eq!(covs, vec![vec![1], vec![2, 3]]),
        ExecResult::Failed(_) => panic!("partial success must win over error text"),
    }
}

#[test]
fn monitor_acknowledges_once_per_sample() {
    let mut m = Monitor::new();
    assert_eq!(m.acks, 0);
    assert_eq!(m.on_frame(&encode_frame(&vec![5])), Ok(()));
    assert_eq!(m.acks, 1);
    assert_eq!(m.on_frame(&encode_frame(&vec![6])), Ok(()));
    assert_eq!(m.acks, 2);
    assert_eq!(m.covs.len(), m.acks);
}

#[test]
fn malformed_frame_is_not_acknowledged() {
    let mut m = Monitor::new();
    assert!(m.on_frame(&vec![0, 0, 0, 0]).is_err());
    assert_eq!(m.acks, 0);
    assert_eq!(m.covs.len(), 0);
}

#[test]
fn agent_emits_frames_in_lock_step() {
    let mut a = Agent::new();
    let cov: Vec<u64> = vec![10, 20];
    match a.on_statement(true, &cov) {
        AgentStep::Emit(f) => assert_eq!(f, encode_frame(&cov)),
        AgentStep::Abort => panic!("a successful statement emits its sample"),
    }
    assert_eq!(a.sent, 1);
    assert_eq!(a.acked, 0);
    a.on_ack();
    assert_eq!(a.acked, 1);
}

#[test]
fn agent_aborts_on_semantic_failure() {
    let mut a = Agent::new();
    match a.on_statement(false, &vec![]) {
        AgentStep::Abort => {}
        AgentStep::Emit(_) => panic!("a failed statement sends nothing"),
    }
    assert_eq!(a.sent, 0);
}

#[test]
fn three_statement_run_with_late_failure_is_a_partial_success() {
    // A 3-call program: calls 1 and 2 succeed with samples [10,20] and
    // [30]; call 3 fails semantically. The agent exits before a third
    // frame; the monitor sees the error channel close, drains empty text,
    // and returns success on the two collected samples.
    let mut agent = Agent::new();
    let mut monitor = Monitor::new();

    let first: Vec<u64> = vec![10, 20];
    match agent.on_statement(true, &first) {
        AgentStep::Emit(frame) => {
            assert_eq!(monitor.on_frame(&frame), Ok(()));
            agent.on_ack();
        }
        AgentStep::Abort => panic!("call 1 succeeds"),
    }

    let second: Vec<u64> = vec![30];
    match agent.on_statement(true, &second) {
        AgentStep::Emit(frame) => {
            assert_eq!(monitor.on_frame(&frame), Ok(()));
            agent.on_ack();
        }
        AgentStep::Abort => panic!("call 2 succeeds"),
    }

    match agent.on_statement(false, &vec![]) {
        AgentStep::Abort => {}
        AgentStep::Emit(_) => panic!("call 3 fails semantically"),
    }

    match monitor.on_error_channel(String::new()) {
        ExecResult::Success(covs) => assert_eq!(covs, vec![vec![10, 20], vec![30]]),
        ExecResult::Failed(_) => panic!("two samples were collected"),
    }
}
