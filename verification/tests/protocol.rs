use daemonize::machine::{decode_wait_code, exit_status_byte, start, step};
use daemonize::{Action, DaemonError, DaemonizeOptions, Event, ExitCodes, Fork, Identity, Phase, Step};

fn advance(timeout_ms: u16, phase: Phase, event: Event) -> (Action, Phase) {
    match step(timeout_ms, phase, event).expect("protocol accepts this event") {
        Step::Continue { action, phase } => (action, phase),
        other => panic!("expected the machine to continue, got {:?}", other),
    }
}

fn exits_with(timeout_ms: u16, phase: Phase, event: Event) -> ExitCodes {
    match step(timeout_ms, phase, event).expect("protocol accepts this event") {
        Step::Exit { code } => code,
        other => panic!("expected the machine to exit, got {:?}", other),
    }
}

fn finishes_with(timeout_ms: u16, phase: Phase, event: Event) -> Result<Identity, DaemonError> {
    match step(timeout_ms, phase, event).expect("protocol accepts this event") {
        Step::Finish { outcome } => outcome,
        other => panic!("expected the machine to finish, got {:?}", other),
    }
}

#[test]
fn the_machine_opens_with_the_first_fork() {
    let (action, phase) = start();
    assert_eq!(action, Action::Fork);
    assert_eq!(phase, Phase::FirstFork);
}

#[test]
fn original_branch_waits_on_its_child_and_reports_success() {
    // Scenario: default configuration, everything downstream succeeds. The
    // original instance waits on the intermediate child, decodes its clean
    // exit, and is the one instance that returns Identity::Original.
    let t = DaemonizeOptions::new().effective_timeout_ms();
    let (_, phase) = start();
    let (action, phase) = advance(t, phase, Event::Forked(Fork::Parent { child: 41 }));
    assert_eq!(action, Action::AwaitChild { pid: 41 });
    let outcome = finishes_with(t, phase, Event::ChildExited { pid: 41, status: 0 });
    assert_eq!(outcome, Ok(Identity::Original));
}

#[test]
fn intermediate_branch_detaches_probes_and_exits_clean_on_survival() {
    // Scenario continued: the intermediate child becomes session leader,
    // forks the grandchild, probes it for the default 1000 ms window, sees
    // it survive, and terminates with the success code — it never returns
    // a value.
    let t = DaemonizeOptions::new().effective_timeout_ms();
    let (_, phase) = start();
    let (action, phase) = advance(t, phase, Event::Forked(Fork::Child));
    assert_eq!(action, Action::StartSession);
    let (action, phase) = advance(t, phase, Event::SessionStarted);
    assert_eq!(action, Action::Fork);
    let (action, phase) = advance(t, phase, Event::Forked(Fork::Parent { child: 42 }));
    assert_eq!(action, Action::ProbeLiveness { pid: 42, timeout_ms: 1000 });
    let code = exits_with(t, phase, Event::LivenessChecked { ready: 0 });
    assert_eq!(code, ExitCodes::Success);
    assert_eq!(code.code(), 0);
}

#[test]
fn grandchild_branch_sanitizes_and_becomes_the_daemon() {
    // Scenario continued: the grandchild pins the root directory, clears
    // the mask, parks the standard descriptors on the null device, closes
    // the surplus descriptor, and is the one instance that returns
    // Identity::Daemon.
    let t = DaemonizeOptions::new().effective_timeout_ms();
    let (_, phase) = start();
    let (_, phase) = advance(t, phase, Event::Forked(Fork::Child));
    let (_, phase) = advance(t, phase, Event::SessionStarted);
    let (action, phase) = advance(t, phase, Event::Forked(Fork::Child));
    assert_eq!(action, Action::ChangeDirToRoot);
    let (action, phase) = advance(t, phase, Event::DirChanged);
    assert_eq!(action, Action::ClearMask);
    let (action, phase) = advance(t, phase, Event::MaskCleared);
    assert_eq!(action, Action::OpenNullDevice);
    let (action, phase) = advance(t, phase, Event::NullOpened { fd: 3 });
    assert_eq!(action, Action::DupNullOnto { null_fd: 3, slot: 0 });
    let (action, phase) = advance(t, phase, Event::Duplicated);
    assert_eq!(action, Action::DupNullOnto { null_fd: 3, slot: 1 });
    let (action, phase) = advance(t, phase, Event::Duplicated);
    assert_eq!(action, Action::DupNullOnto { null_fd: 3, slot: 2 });
    let (action, phase) = advance(t, phase, Event::Duplicated);
    assert_eq!(action, Action::CloseNull { null_fd: 3 });
    let outcome = finishes_with(t, phase, Event::NullClosed);
    assert_eq!(outcome, Ok(Identity::Daemon));
}

#[test]
fn a_null_device_already_on_a_standard_slot_is_not_closed() {
    let t = 1000;
    let phase = Phase::RedirectingStderr { null_fd: 2 };
    let outcome = finishes_with(t, phase, Event::Duplicated);
    assert_eq!(outcome, Ok(Identity::Daemon));
}

#[test]
fn an_unopenable_null_device_exits_the_grandchild_with_code_four() {
    // Scenario: the null device cannot be opened. The grandchild exits
    // with the taxonomy's code 4, and an observer decoding that code gets
    // the open-null-device failure.
    let code = exits_with(1000, Phase::Opening, Event::NullOpenFailed);
    assert_eq!(code, ExitCodes::GrandchildOpenDevNullFailed);
    assert_eq!(code.code(), 4);
    let err = decode_wait_code(exit_status_byte(4 << 8)).unwrap_err();
    assert_eq!(err, DaemonError::GrandchildOpenDevNullFailed);
    assert_eq!(err.message(), "GrandChild open /dev/null failed");
}

#[test]
fn a_grandchild_that_dies_within_the_window_fails_the_whole_attempt() {
    // Scenario: the grandchild is killed 200 ms into a 1000 ms window. The
    // probe reports it waitable, the session leader exits with code 5, and
    // the original caller decodes that into the failed-too-soon error —
    // whatever status the grandchild itself carried.
    let code = exits_with(1000, Phase::Probing { grandchild: 42 }, Event::LivenessChecked { ready: 1 });
    assert_eq!(code, ExitCodes::GrandchildFailedTooSoon);
    let status = code.code() << 8;
    let outcome = finishes_with(1000, Phase::AwaitingChild { child: 41 }, Event::ChildExited {
        pid: 41,
        status,
    });
    assert_eq!(outcome, Err(DaemonError::GrandchildFailedTooSoon));
    assert_eq!(outcome.unwrap_err().message(), "GrandChild failed too soon");
}

#[test]
fn a_failed_probe_counts_as_an_early_death() {
    let code = exits_with(1000, Phase::Probing { grandchild: 42 }, Event::LivenessCheckFailed);
    assert_eq!(code, ExitCodes::GrandchildFailedTooSoon);
}

#[test]
fn a_zero_window_still_reports_survival_of_a_living_grandchild() {
    // Scenario: timeout configured to 0 ms. The probe action carries the
    // zero window unchanged, and a probe that saw nothing ready — the
    // grandchild had not exited at the moment of the check — still exits
    // with the success code.
    let t = DaemonizeOptions::new().set_timeout_ms(0).effective_timeout_ms();
    assert_eq!(t, 0);
    let (action, phase) = advance(t, Phase::SecondFork, Event::Forked(Fork::Parent { child: 9 }));
    assert_eq!(action, Action::ProbeLiveness { pid: 9, timeout_ms: 0 });
    let code = exits_with(t, phase, Event::LivenessChecked { ready: 0 });
    assert_eq!(code, ExitCodes::Success);
}

#[test]
fn a_failed_first_fork_propagates_to_the_caller() {
    let outcome = finishes_with(1000, Phase::FirstFork, Event::ForkFailed);
    assert_eq!(outcome, Err(DaemonError::ForkFailed));
}

#[test]
fn a_failed_wait_propagates_to_the_caller() {
    let outcome = finishes_with(1000, Phase::AwaitingChild { child: 8 }, Event::AwaitFailed);
    assert_eq!(outcome, Err(DaemonError::WaitFailed));
}

#[test]
fn a_failed_session_transition_exits_with_code_two() {
    let code = exits_with(1000, Phase::Detaching, Event::SessionFailed);
    assert_eq!(code, ExitCodes::ChildSetsidFailed);
    assert_eq!(code.code(), 2);
}

#[test]
fn a_failed_second_fork_exits_with_code_one() {
    let code = exits_with(1000, Phase::SecondFork, Event::ForkFailed);
    assert_eq!(code, ExitCodes::ChildFailedToFork);
    assert_eq!(code.code(), 1);
}

#[test]
fn a_failed_root_chdir_exits_with_code_three() {
    let code = exits_with(1000, Phase::Entering, Event::DirChangeFailed);
    assert_eq!(code, ExitCodes::GrandchildChdirFailed);
    assert_eq!(code.code(), 3);
}

#[test]
fn a_wait_reporting_the_wrong_child_breaks_the_protocol() {
    let s = step(1000, Phase::AwaitingChild { child: 1 }, Event::ChildExited { pid: 2, status: 0 });
    assert_eq!(s, None);
}

#[test]
fn fork_values_classify_into_parent_and_child() {
    assert_eq!(Fork::from_fork_value(0), Fork::Child);
    assert_eq!(Fork::from_fork_value(314), Fork::Parent { child: 314 });
}
