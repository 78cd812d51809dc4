use pod_lifecycle::api::Report;
use pod_lifecycle::pod::status::Phase;
use pod_lifecycle::pod::status::Status;
use pod_lifecycle::pod::status::StatusWrapper;
use pod_lifecycle::state::next;
use pod_lifecycle::state::run;
use pod_lifecycle::state::Failure;
use pod_lifecycle::state::Transition;

const PHASES: [Phase; 11] = [
    Phase::Registered,
    Phase::Pending,
    Phase::ImagePullError,
    Phase::ImagePullBackoff,
    Phase::VolumeMount,
    Phase::VolumeError,
    Phase::Starting,
    Phase::Running,
    Phase::Error,
    Phase::CrashLoopBackoff,
    Phase::Completed,
];

fn table(from: Phase) -> Vec<Phase> {
    match from {
        Phase::Registered => vec![Phase::Pending, Phase::Error],
        Phase::Pending => vec![Phase::Running, Phase::Error],
        Phase::Running => vec![Phase::Completed, Phase::Error],
        Phase::Error => vec![Phase::Pending, Phase::CrashLoopBackoff],
        Phase::CrashLoopBackoff => vec![Phase::Error],
        _ => vec![],
    }
}

fn report(message: &str, reason: &str) -> Report {
    Report {
        message: message.to_string(),
        reason: reason.to_string(),
        started_at: Some(17),
        finished_at: None,
    }
}

/// A status in phase `phase`, reached by edges where the graph allows it.
fn status_in(phase: Phase, inner: Report) -> Option<StatusWrapper> {
    let start = Status::<pod_lifecycle::pod::status::Registered>::new(inner);
    match phase {
        Phase::Registered => Some(StatusWrapper::Registered(start)),
        Phase::Pending => Some(StatusWrapper::Pending(start.to_pending())),
        Phase::Running => Some(StatusWrapper::Running(start.to_pending().to_running())),
        Phase::Completed => {
            Some(StatusWrapper::Completed(start.to_pending().to_running().to_completed()))
        }
        Phase::Error => Some(StatusWrapper::Error(start.to_error("stopped"))),
        Phase::CrashLoopBackoff => Some(StatusWrapper::CrashLoopBackoff(
            start.to_error("stopped").to_crash_loop_backoff(),
        )),
        _ => None,
    }
}

#[test]
fn edges_are_exactly_those_of_the_table() {
    for from in PHASES {
        for to in PHASES {
            assert_eq!(from.leads_to(to), table(from).contains(&to), "{:?} -> {:?}", from, to);
        }
    }
}

#[test]
fn successors_are_listed_once_each() {
    for from in PHASES {
        let listed = from.list_successors();
        let expected = table(from);
        assert_eq!(listed.len(), expected.len(), "{:?}", from);
        for to in expected {
            assert!(listed.contains(&to), "{:?} -> {:?}", from, to);
        }
    }
}

#[test]
fn success_and_failure_edges() {
    assert_eq!(Phase::Registered.on_success(), Some(Phase::Pending));
    assert_eq!(Phase::Registered.on_failure(), Some(Phase::Error));
    assert_eq!(Phase::Pending.on_success(), Some(Phase::Running));
    assert_eq!(Phase::Pending.on_failure(), Some(Phase::Error));
    assert_eq!(Phase::Running.on_success(), Some(Phase::Completed));
    assert_eq!(Phase::Running.on_failure(), Some(Phase::Error));
    assert_eq!(Phase::Error.on_success(), Some(Phase::Pending));
    assert_eq!(Phase::Error.on_failure(), Some(Phase::CrashLoopBackoff));
    assert_eq!(Phase::CrashLoopBackoff.on_success(), None);
    assert_eq!(Phase::CrashLoopBackoff.on_failure(), Some(Phase::Error));
    assert_eq!(Phase::Completed.on_success(), None);
    assert_eq!(Phase::Completed.on_failure(), None);
    assert_eq!(Phase::Starting.on_success(), None);
    assert_eq!(Phase::VolumeMount.on_failure(), None);
}

#[test]
fn a_new_status_is_registered_with_its_metadata() {
    let status = StatusWrapper::new(report("hello", "because"));
    assert_eq!(status.phase(), Phase::Registered);
    assert_eq!(status.inner().message, "hello");
    assert_eq!(status.inner().reason, "because");
    assert_eq!(status.inner().started_at, Some(17));
    assert_eq!(status.inner().finished_at, None);
}

#[test]
fn transition_takes_table_edges_and_no_others() {
    for from in PHASES {
        for to in PHASES {
            let status = match status_in(from, report("m", "r")) {
                Some(status) => status,
                None => continue,
            };
            let message_before = status.inner().message.clone();
            match status.transition(to) {
                Ok(next) => {
                    assert!(table(from).contains(&to), "{:?} -> {:?}", from, to);
                    assert_eq!(next.phase(), to);
                    assert_eq!(next.inner().message, message_before);
                    assert_eq!(next.inner().reason, "r");
                    assert_eq!(next.inner().started_at, Some(17));
                }
                Err(rejected) => {
                    assert!(!table(from).contains(&to), "{:?} -> {:?}", from, to);
                    assert_eq!(rejected.requested, to);
                    assert_eq!(rejected.status.phase(), from);
                    assert_eq!(rejected.status.inner().message, message_before);
                }
            }
        }
    }
}

#[test]
fn phases_without_edges_reject_every_transition() {
    let stuck = StatusWrapper::Registered(Status::<pod_lifecycle::pod::status::Registered>::new(
        report("m", "r"),
    ));
    let rejected = stuck.transition(Phase::Starting).unwrap_err();
    assert_eq!(rejected.requested, Phase::Starting);
    assert_eq!(rejected.status.phase(), Phase::Registered);
}

#[test]
fn completed_is_terminal() {
    for to in PHASES {
        let done = status_in(Phase::Completed, report("fine", "r")).unwrap();
        let rejected = done.transition(to).unwrap_err();
        assert_eq!(rejected.requested, to);
        assert_eq!(rejected.status.phase(), Phase::Completed);
        assert_eq!(rejected.status.inner().message, "fine");
    }
    let done = status_in(Phase::Completed, report("fine", "r")).unwrap();
    let rejected = done.fail("too late").unwrap_err();
    assert_eq!(rejected.requested, Phase::Error);
    assert_eq!(rejected.status.phase(), Phase::Completed);
    assert_eq!(rejected.status.inner().message, "fine");
}

#[test]
fn fail_records_the_message_and_keeps_the_rest() {
    for from in [Phase::Registered, Phase::Pending, Phase::Running, Phase::CrashLoopBackoff] {
        let status = status_in(from, report("old", "why")).unwrap();
        let failed = status.fail("image not found").unwrap();
        assert_eq!(failed.phase(), Phase::Error);
        assert_eq!(failed.inner().message, "image not found");
        assert_eq!(failed.inner().reason, "why");
        assert_eq!(failed.inner().started_at, Some(17));
    }
    let already = status_in(Phase::Error, report("old", "why")).unwrap();
    let rejected = already.fail("again").unwrap_err();
    assert_eq!(rejected.status.phase(), Phase::Error);
    assert_eq!(rejected.status.inner().message, "stopped");
}

#[test]
fn typed_edges_carry_the_metadata() {
    let start = Status::<pod_lifecycle::pod::status::Registered>::new(report("m", "r"));
    let pending = start.to_pending();
    assert_eq!(pending.inner().message, "m");
    let running = pending.to_running();
    assert_eq!(running.inner().reason, "r");
    let failed = running.to_error("crashed");
    assert_eq!(failed.inner().message, "crashed");
    assert_eq!(failed.inner().reason, "r");
    let cooling = failed.to_crash_loop_backoff();
    assert_eq!(cooling.inner().message, "crashed");
    let failed_again = cooling.to_error("crashed again");
    let pending_again = failed_again.to_pending();
    let inner = pending_again.to_running().to_completed().into_inner();
    assert_eq!(inner.message, "crashed again");
    assert_eq!(inner.started_at, Some(17));
}

#[test]
fn a_copy_of_a_status_says_the_same() {
    let status = status_in(Phase::Running, report("m", "r")).unwrap();
    let copy = status.clone();
    assert_eq!(copy.phase(), Phase::Running);
    assert_eq!(copy.inner().message, "m");
    assert_eq!(copy.inner().reason, "r");
    assert_eq!(copy.inner().started_at, Some(17));
}

#[test]
fn next_follows_the_success_edge() {
    assert!(matches!(next(Phase::Registered), Transition::Advance(Phase::Pending)));
    assert!(matches!(next(Phase::Pending), Transition::Advance(Phase::Running)));
    assert!(matches!(next(Phase::Running), Transition::Advance(Phase::Completed)));
    assert!(matches!(next(Phase::Completed), Transition::Completed(Ok(()))));
    assert!(matches!(
        next(Phase::Error),
        Transition::Completed(Err(Failure { phase: Phase::Error }))
    ));
    assert!(matches!(next(Phase::CrashLoopBackoff), Transition::Error(Phase::Error)));
    assert!(matches!(
        next(Phase::Starting),
        Transition::Completed(Err(Failure { phase: Phase::Starting }))
    ));
}

#[test]
fn run_next() {
    let state = Phase::Registered;
    let result = run(state);
    println!("{:?}", result);
    assert_eq!(result, Ok(()));
}

#[test]
fn run_ends_as_the_graph_says() {
    assert_eq!(run(Phase::Pending), Ok(()));
    assert_eq!(run(Phase::Running), Ok(()));
    assert_eq!(run(Phase::Completed), Ok(()));
    assert_eq!(run(Phase::Error), Err(Failure { phase: Phase::Error }));
    assert_eq!(run(Phase::CrashLoopBackoff), Err(Failure { phase: Phase::Error }));
    assert_eq!(run(Phase::VolumeError), Err(Failure { phase: Phase::VolumeError }));
    assert_eq!(run(Phase::ImagePullBackoff), Err(Failure { phase: Phase::ImagePullBackoff }));
}
