//! The daemonization state machine: the double-fork protocol as a pure
//! transition function.
//!
//! Three cooperating process instances take part in one invocation: the
//! original caller, the intermediate child (which becomes the session
//! leader), and the grandchild (the eventual daemon). After each fork every
//! instance keeps its own copy of the machine and continues from the branch
//! the fork outcome selects, so a single transition function describes all
//! three. The machine never touches the operating system itself: it answers
//! each event with the next [`Action`] to perform, a terminal exit code, or
//! the final outcome, and an unverified driver performs the actions and
//! feeds their results back as events.

use vstd::prelude::*;

use crate::codes::spec_try_from;
use crate::codes::ExitCodes;
use crate::errors::DaemonError;

verus! {

/// Which logical role the currently running process instance ended up with.
#[derive(Clone, Copy, Debug, PartialEq, Eq, Structural)]
pub enum Identity {
    /// The process that called the entry point and keeps running in the
    /// foreground caller's lineage.
    Original,
    /// The fully detached grandchild that continues as the background
    /// service.
    Daemon,
}

/// The outcome of a successful fork, as seen by the instance inspecting it.
#[derive(Clone, Copy, Debug, PartialEq, Eq, Structural)]
pub enum Fork {
    /// This instance is the parent; `child` is the new process's identifier.
    Parent { child: i32 },
    /// This instance is the newly created child.
    Child,
}

impl Fork {
    /// Interpret the raw return value of a successful fork call: zero means
    /// this instance is the new child, any other value is the child's
    /// process identifier as seen by the parent.
    pub fn from_fork_value(pid: i32) -> (r: Fork)
        requires
            pid >= 0,
        ensures
            pid == 0 ==> r == Fork::Child,
            pid != 0 ==> r == (Fork::Parent { child: pid }),
    {
        if pid == 0 {
            Fork::Child
        } else {
            Fork::Parent { child: pid }
        }
    }
}

/// Where in the protocol the currently running process instance stands,
/// between issuing an action and learning its result.
#[derive(Clone, Copy, Debug, PartialEq, Eq, Structural)]
pub enum Phase {
    /// The first fork has been requested; no instance has branched yet.
    FirstFork,
    /// The original instance is waiting, unbounded, for the intermediate
    /// child `child` to exit.
    AwaitingChild { child: i32 },
    /// The intermediate child is becoming a session leader.
    Detaching,
    /// The session leader has requested the second fork.
    SecondFork,
    /// The session leader is watching grandchild `grandchild` for an early
    /// death within the liveness window.
    Probing { grandchild: i32 },
    /// The grandchild is changing its working directory to the root.
    Entering,
    /// The grandchild is resetting its file-creation mask.
    Masking,
    /// The grandchild is opening the null device for read and write.
    Opening,
    /// The grandchild is duplicating the null-device descriptor onto
    /// standard input.
    RedirectingStdin { null_fd: i32 },
    /// The grandchild is duplicating the null-device descriptor onto
    /// standard output.
    RedirectingStdout { null_fd: i32 },
    /// The grandchild is duplicating the null-device descriptor onto
    /// standard error.
    RedirectingStderr { null_fd: i32 },
    /// The grandchild is closing the surplus null-device descriptor.
    ClosingNull,
}

/// The result of the most recent action, reported back to the machine.
#[derive(Clone, Copy, Debug, PartialEq, Eq, Structural)]
pub enum Event {
    /// A fork succeeded, with the branch the running instance took.
    Forked(Fork),
    /// A fork call failed.
    ForkFailed,
    /// Becoming a session leader succeeded.
    SessionStarted,
    /// Becoming a session leader failed.
    SessionFailed,
    /// The awaited child exited: `pid` is the identifier the wait reported,
    /// `status` the raw wait status.
    ChildExited { pid: i32, status: i32 },
    /// Waiting for the child failed.
    AwaitFailed,
    /// The liveness probe completed: `ready` is zero when the window elapsed
    /// with the grandchild still running, positive when the grandchild
    /// became waitable within the window.
    LivenessChecked { ready: i32 },
    /// The liveness probe itself failed.
    LivenessCheckFailed,
    /// Changing the working directory to the root succeeded.
    DirChanged,
    /// Changing the working directory to the root failed.
    DirChangeFailed,
    /// The file-creation mask was reset.
    MaskCleared,
    /// The null device was opened read-write on descriptor `fd`.
    NullOpened { fd: i32 },
    /// The null device could not be opened.
    NullOpenFailed,
    /// A duplication onto a standard descriptor completed. Duplication is
    /// best-effort: the same event reports success and failure alike.
    Duplicated,
    /// Closing the surplus null-device descriptor completed. Closing is
    /// best-effort: the same event reports success and failure alike.
    NullClosed,
}

/// What the driver must do next on the machine's behalf.
#[derive(Clone, Copy, Debug, PartialEq, Eq, Structural)]
pub enum Action {
    /// Fork the current process.
    Fork,
    /// Block, with no timeout, until child `pid` exits, and report its
    /// identifier and raw wait status.
    AwaitChild { pid: i32 },
    /// Become a session leader, detaching from any controlling terminal.
    StartSession,
    /// Watch process `pid` for up to `timeout_ms` milliseconds and report
    /// whether it became waitable within that window.
    ProbeLiveness { pid: i32, timeout_ms: u16 },
    /// Change the working directory to the filesystem root.
    ChangeDirToRoot,
    /// Reset the file-creation mask so it imposes no restriction.
    ClearMask,
    /// Open the null device for read and write.
    OpenNullDevice,
    /// Duplicate descriptor `null_fd` onto standard descriptor `slot`,
    /// best-effort.
    DupNullOnto { null_fd: i32, slot: i32 },
    /// Close descriptor `null_fd`, best-effort.
    CloseNull { null_fd: i32 },
}

/// The machine's answer to one event.
#[derive(Clone, Copy, Debug, PartialEq, Eq)]
pub enum Step {
    /// Perform `action` and report its result; the machine is in `phase`
    /// meanwhile.
    Continue { action: Action, phase: Phase },
    /// This process instance is done coordinating: terminate now with
    /// `code` as the process exit status.
    Exit { code: ExitCodes },
    /// The protocol is over for this process instance: hand `outcome` to
    /// the caller of the entry point.
    Finish { outcome: Result<Identity, DaemonError> },
}

/// The exit-status byte of a raw wait status: the low byte of the exit code
/// the child passed when it terminated normally, zero when it was killed by
/// a signal.
pub open spec fn spec_exit_status_byte(status: i32) -> i32 {
    (status & 0xff00) >> 8
}

/// Extract the exit-status byte from a raw wait status.
pub fn exit_status_byte(status: i32) -> (r: i32)
    ensures
        r == spec_exit_status_byte(status),
{
    (status & 0xff00) >> 8
}

/// What the original caller concludes from the exit-status byte of the
/// intermediate child: success exactly on the taxonomy's success code, the
/// matching failure on each other taxonomy code, and an
/// unrecognized-exit-code failure carrying the raw byte otherwise.
pub open spec fn spec_wait_outcome(code: i32) -> Result<Identity, DaemonError> {
    match spec_try_from(code) {
        Result::Ok(ExitCodes::Success) => Result::Ok(Identity::Original),
        Result::Ok(ExitCodes::ChildFailedToFork) => Result::Err(DaemonError::ChildFailedToFork),
        Result::Ok(ExitCodes::ChildSetsidFailed) => Result::Err(DaemonError::ChildSetsidFailed),
        Result::Ok(ExitCodes::GrandchildChdirFailed) => Result::Err(
            DaemonError::GrandchildChdirFailed,
        ),
        Result::Ok(ExitCodes::GrandchildOpenDevNullFailed) => Result::Err(
            DaemonError::GrandchildOpenDevNullFailed,
        ),
        Result::Ok(ExitCodes::GrandchildFailedTooSoon) => Result::Err(
            DaemonError::GrandchildFailedTooSoon,
        ),
        Result::Err(raw) => Result::Err(DaemonError::UnrecognizedExitCode { code: raw }),
    }
}

/// Decode the exit-status byte reported for the intermediate child into the
/// original caller's outcome.
pub fn decode_wait_code(code: i32) -> (r: Result<Identity, DaemonError>)
    ensures
        r == spec_wait_outcome(code),
        r is Ok <==> code == 0,
{
    match ExitCodes::try_from(code) {
        Ok(ExitCodes::Success) => Ok(Identity::Original),
        Ok(ExitCodes::ChildFailedToFork) => Err(DaemonError::ChildFailedToFork),
        Ok(ExitCodes::ChildSetsidFailed) => Err(DaemonError::ChildSetsidFailed),
        Ok(ExitCodes::GrandchildChdirFailed) => Err(DaemonError::GrandchildChdirFailed),
        Ok(ExitCodes::GrandchildOpenDevNullFailed) => Err(DaemonError::GrandchildOpenDevNullFailed),
        Ok(ExitCodes::GrandchildFailedTooSoon) => Err(DaemonError::GrandchildFailedTooSoon),
        Err(raw) => Err(DaemonError::UnrecognizedExitCode { code: raw }),
    }
}

/// The transition relation of the protocol. `None` marks a pair of phase and
/// event that the protocol never produces: a driver receiving it has broken
/// the protocol (for instance, a wait that reported a different child than
/// the one forked, an internal consistency violation).
pub open spec fn spec_step(timeout_ms: u16, phase: Phase, event: Event) -> Option<Step> {
    match (phase, event) {
        // First fork: the parent turns to waiting on the child, the child
        // goes on to detach, and a failed fork is reported straight back to
        // the caller.
        (Phase::FirstFork, Event::Forked(Fork::Parent { child })) => Some(
            Step::Continue {
                action: Action::AwaitChild { pid: child },
                phase: Phase::AwaitingChild { child },
            },
        ),
        (Phase::FirstFork, Event::Forked(Fork::Child)) => Some(
            Step::Continue { action: Action::StartSession, phase: Phase::Detaching },
        ),
        (Phase::FirstFork, Event::ForkFailed) => Some(
            Step::Finish { outcome: Result::Err(DaemonError::ForkFailed) },
        ),
        // The original instance decodes the intermediate child's exit
        // status; a wait reporting any other process is a protocol breach.
        (Phase::AwaitingChild { child }, Event::ChildExited { pid, status }) => if pid == child {
            Some(
                Step::Finish { outcome: spec_wait_outcome(spec_exit_status_byte(status)) },
            )
        } else {
            None
        },
        (Phase::AwaitingChild { .. }, Event::AwaitFailed) => Some(
            Step::Finish { outcome: Result::Err(DaemonError::WaitFailed) },
        ),
        // The intermediate child becomes a session leader, or dies telling
        // why. A failed session transition has no meaningful retry.
        (Phase::Detaching, Event::SessionStarted) => Some(
            Step::Continue { action: Action::Fork, phase: Phase::SecondFork },
        ),
        (Phase::Detaching, Event::SessionFailed) => Some(
            Step::Exit { code: ExitCodes::ChildSetsidFailed },
        ),
        // Second fork: the session leader turns to probing the grandchild,
        // the grandchild starts its bootstrap, and a failed fork makes the
        // session leader die telling why.
        (Phase::SecondFork, Event::Forked(Fork::Parent { child })) => Some(
            Step::Continue {
                action: Action::ProbeLiveness { pid: child, timeout_ms },
                phase: Phase::Probing { grandchild: child },
            },
        ),
        (Phase::SecondFork, Event::Forked(Fork::Child)) => Some(
            Step::Continue { action: Action::ChangeDirToRoot, phase: Phase::Entering },
        ),
        (Phase::SecondFork, Event::ForkFailed) => Some(
            Step::Exit { code: ExitCodes::ChildFailedToFork },
        ),
        // The liveness ruling: a probe that saw nothing within the window
        // means the grandchild survived its bootstrap, and the session
        // leader exits with the success code; a grandchild that became
        // waitable (whatever its status), or a failed probe, means it died
        // too soon.
        (Phase::Probing { .. }, Event::LivenessChecked { ready }) => if ready < 0 {
            None
        } else if ready == 0 {
            Some(Step::Exit { code: ExitCodes::Success })
        } else {
            Some(Step::Exit { code: ExitCodes::GrandchildFailedTooSoon })
        },
        (Phase::Probing { .. }, Event::LivenessCheckFailed) => Some(
            Step::Exit { code: ExitCodes::GrandchildFailedTooSoon },
        ),
        // The grandchild's bootstrap: root directory, clean mask, null
        // device on the standard descriptors.
        (Phase::Entering, Event::DirChanged) => Some(
            Step::Continue { action: Action::ClearMask, phase: Phase::Masking },
        ),
        (Phase::Entering, Event::DirChangeFailed) => Some(
            Step::Exit { code: ExitCodes::GrandchildChdirFailed },
        ),
        (Phase::Masking, Event::MaskCleared) => Some(
            Step::Continue { action: Action::OpenNullDevice, phase: Phase::Opening },
        ),
        (Phase::Opening, Event::NullOpened { fd }) => if fd < 0 {
            None
        } else {
            Some(
                Step::Continue {
                    action: Action::DupNullOnto { null_fd: fd, slot: 0 },
                    phase: Phase::RedirectingStdin { null_fd: fd },
                },
            )
        },
        (Phase::Opening, Event::NullOpenFailed) => Some(
            Step::Exit { code: ExitCodes::GrandchildOpenDevNullFailed },
        ),
        (Phase::RedirectingStdin { null_fd }, Event::Duplicated) => Some(
            Step::Continue {
                action: Action::DupNullOnto { null_fd, slot: 1 },
                phase: Phase::RedirectingStdout { null_fd },
            },
        ),
        (Phase::RedirectingStdout { null_fd }, Event::Duplicated) => Some(
            Step::Continue {
                action: Action::DupNullOnto { null_fd, slot: 2 },
                phase: Phase::RedirectingStderr { null_fd },
            },
        ),
        // A null-device descriptor that is not itself a standard one is
        // surplus once redirection is done and gets closed; with that, the
        // grandchild is the detached daemon.
        (Phase::RedirectingStderr { null_fd }, Event::Duplicated) => if null_fd > 2 {
            Some(
                Step::Continue {
                    action: Action::CloseNull { null_fd },
                    phase: Phase::ClosingNull,
                },
            )
        } else {
            Some(Step::Finish { outcome: Result::Ok(Identity::Daemon) })
        },
        (Phase::ClosingNull, Event::NullClosed) => Some(
            Step::Finish { outcome: Result::Ok(Identity::Daemon) },
        ),
        _ => None,
    }
}

/// The machine's first move: request the first fork.
pub fn start() -> (r: (Action, Phase))
    ensures
        r == (Action::Fork, Phase::FirstFork),
{
    (Action::Fork, Phase::FirstFork)
}

/// Advance the machine by one event.
///
/// `timeout_ms` is the liveness window the session leader hands to its
/// probe; resolve it from the configured options first. `None` means the
/// pair of phase and event breaks the protocol and the machine refuses to
/// move: the driver must treat it as the internal consistency failure it
/// is, not feed it back.
pub fn step(timeout_ms: u16, phase: Phase, event: Event) -> (r: Option<Step>)
    ensures
        r == spec_step(timeout_ms, phase, event),
{
    match (phase, event) {
        (Phase::FirstFork, Event::Forked(Fork::Parent { child })) => Some(
            Step::Continue {
                action: Action::AwaitChild { pid: child },
                phase: Phase::AwaitingChild { child },
            },
        ),
        (Phase::FirstFork, Event::Forked(Fork::Child)) => Some(
            Step::Continue { action: Action::StartSession, phase: Phase::Detaching },
        ),
        (Phase::FirstFork, Event::ForkFailed) => Some(
            Step::Finish { outcome: Err(DaemonError::ForkFailed) },
        ),
        (Phase::AwaitingChild { child }, Event::ChildExited { pid, status }) => if pid == child {
            let code = exit_status_byte(status);
            Some(Step::Finish { outcome: decode_wait_code(code) })
        } else {
            None
        },
        (Phase::AwaitingChild { .. }, Event::AwaitFailed) => Some(
            Step::Finish { outcome: Err(DaemonError::WaitFailed) },
        ),
        (Phase::Detaching, Event::SessionStarted) => Some(
            Step::Continue { action: Action::Fork, phase: Phase::SecondFork },
        ),
        (Phase::Detaching, Event::SessionFailed) => Some(
            Step::Exit { code: ExitCodes::ChildSetsidFailed },
        ),
        (Phase::SecondFork, Event::Forked(Fork::Parent { child })) => Some(
            Step::Continue {
                action: Action::ProbeLiveness { pid: child, timeout_ms },
                phase: Phase::Probing { grandchild: child },
            },
        ),
        (Phase::SecondFork, Event::Forked(Fork::Child)) => Some(
            Step::Continue { action: Action::ChangeDirToRoot, phase: Phase::Entering },
        ),
        (Phase::SecondFork, Event::ForkFailed) => Some(
            Step::Exit { code: ExitCodes::ChildFailedToFork },
        ),
        (Phase::Probing { .. }, Event::LivenessChecked { ready }) => if ready < 0 {
            None
        } else if ready == 0 {
            Some(Step::Exit { code: ExitCodes::Success })
        } else {
            Some(Step::Exit { code: ExitCodes::GrandchildFailedTooSoon })
        },
        (Phase::Probing { .. }, Event::LivenessCheckFailed) => Some(
            Step::Exit { code: ExitCodes::GrandchildFailedTooSoon },
        ),
        (Phase::Entering, Event::DirChanged) => Some(
            Step::Continue { action: Action::ClearMask, phase: Phase::Masking },
        ),
        (Phase::Entering, Event::DirChangeFailed) => Some(
            Step::Exit { code: ExitCodes::GrandchildChdirFailed },
        ),
        (Phase::Masking, Event::MaskCleared) => Some(
            Step::Continue { action: Action::OpenNullDevice, phase: Phase::Opening },
        ),
        (Phase::Opening, Event::NullOpened { fd }) => if fd < 0 {
            None
        } else {
            Some(
                Step::Continue {
                    action: Action::DupNullOnto { null_fd: fd, slot: 0 },
                    phase: Phase::RedirectingStdin { null_fd: fd },
                },
            )
        },
        (Phase::Opening, Event::NullOpenFailed) => Some(
            Step::Exit { code: ExitCodes::GrandchildOpenDevNullFailed },
        ),
        (Phase::RedirectingStdin { null_fd }, Event::Duplicated) => Some(
            Step::Continue {
                action: Action::DupNullOnto { null_fd, slot: 1 },
                phase: Phase::RedirectingStdout { null_fd },
            },
        ),
        (Phase::RedirectingStdout { null_fd }, Event::Duplicated) => Some(
            Step::Continue {
                action: Action::DupNullOnto { null_fd, slot: 2 },
                phase: Phase::RedirectingStderr { null_fd },
            },
        ),
        (Phase::RedirectingStderr { null_fd }, Event::Duplicated) => if null_fd > 2 {
            Some(
                Step::Continue {
                    action: Action::CloseNull { null_fd },
                    phase: Phase::ClosingNull,
                },
            )
        } else {
            Some(Step::Finish { outcome: Ok(Identity::Daemon) })
        },
        (Phase::ClosingNull, Event::NullClosed) => Some(
            Step::Finish { outcome: Ok(Identity::Daemon) },
        ),
        _ => None,
    }
}

/// The phases occupied by the intermediate process instance: from the
/// moment the first fork puts it in its own process until it terminates.
pub open spec fn is_intermediate_phase(phase: Phase) -> bool {
    ||| phase is Detaching
    ||| phase is SecondFork
    ||| phase matches Phase::Probing { .. }
}

/// Role exclusivity across the three process instances.
///
/// `Identity::Original` is only ever produced by the phase in which the
/// original instance waits on its child, `Identity::Daemon` only by the
/// last two phases of the grandchild's bootstrap, and no phase of the
/// intermediate instance ever produces a final outcome at all: whichever
/// event arrives there, the intermediate instance either continues
/// coordinating or terminates with an exit code. So at most one instance
/// per invocation returns each identity, and the middle one never returns
/// from the entry point.
pub proof fn lemma_role_exclusivity(timeout_ms: u16, phase: Phase, event: Event)
    ensures
        (spec_step(timeout_ms, phase, event) matches Some(Step::Finish { outcome })
            && outcome == Result::<Identity, DaemonError>::Ok(Identity::Original)) ==> (
        phase matches Phase::AwaitingChild { .. }),
        (spec_step(timeout_ms, phase, event) matches Some(Step::Finish { outcome })
            && outcome == Result::<Identity, DaemonError>::Ok(Identity::Daemon)) ==> (phase matches
            Phase::RedirectingStderr { .. } || phase is ClosingNull),
        is_intermediate_phase(phase) ==> !(spec_step(timeout_ms, phase, event) matches Some(
            Step::Finish { .. },
        )),
{
}

/// The liveness ruling (the decision side of the bounded wait).
///
/// A probe that reported nothing ready — the window elapsed with the
/// grandchild still running — makes the session leader exit with the
/// success code. A grandchild that became waitable within the window,
/// whatever exit status it would report, and likewise a failed probe, makes
/// the session leader exit with the failed-too-soon code. Survival past the
/// window, not a clean exit, is the protocol's success signal.
pub proof fn lemma_liveness_ruling(timeout_ms: u16, grandchild: i32, ready: i32)
    ensures
        ready == 0 ==> spec_step(
            timeout_ms,
            Phase::Probing { grandchild },
            Event::LivenessChecked { ready },
        ) == Some(Step::Exit { code: ExitCodes::Success }),
        ready > 0 ==> spec_step(
            timeout_ms,
            Phase::Probing { grandchild },
            Event::LivenessChecked { ready },
        ) == Some(Step::Exit { code: ExitCodes::GrandchildFailedTooSoon }),
        spec_step(timeout_ms, Phase::Probing { grandchild }, Event::LivenessCheckFailed) == Some(
            Step::Exit { code: ExitCodes::GrandchildFailedTooSoon },
        ),
{
}

/// Each taxonomy code the intermediate child can exit with is decoded back
/// into the outcome the original caller reports: the success code into
/// `Identity::Original`, every failure code into its matching error.
pub proof fn lemma_exit_codes_reach_the_caller(code: ExitCodes)
    ensures
        code is Success ==> spec_wait_outcome(code.spec_code()) == Result::<
            Identity,
            DaemonError,
        >::Ok(Identity::Original),
        code !is Success ==> spec_wait_outcome(code.spec_code()) is Err,
{
}

} // verus!
