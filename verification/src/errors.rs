//! The error surface of the library: one variant per way a daemonization
//! attempt can fail as seen from the original caller, each with a
//! human-readable description.

use vstd::prelude::*;

verus! {

/// Why a daemonization attempt failed, as observed by the original caller.
///
/// The first two variants are failures of calls made by the original process
/// instance itself; the following five are failure reasons transmitted by the
/// intermediate child through its exit status; the last is an exit status
/// outside the taxonomy, carrying the raw value for diagnostics.
#[derive(Clone, Copy, Debug, PartialEq, Eq, Structural)]
pub enum DaemonError {
    /// The first fork, in the original process instance, failed.
    ForkFailed,
    /// Waiting for the intermediate child to exit failed.
    WaitFailed,
    /// The intermediate child reported that its own (second) fork failed.
    ChildFailedToFork,
    /// The intermediate child reported that it could not become a session
    /// leader.
    ChildSetsidFailed,
    /// The intermediate child reported that the grandchild could not change
    /// its working directory to the root.
    GrandchildChdirFailed,
    /// The intermediate child reported that the grandchild could not open
    /// the null device.
    GrandchildOpenDevNullFailed,
    /// The intermediate child reported that the grandchild exited before the
    /// liveness window elapsed.
    GrandchildFailedTooSoon,
    /// The intermediate child exited with a status outside the taxonomy.
    UnrecognizedExitCode { code: i32 },
}

impl DaemonError {
    /// The description of each failure, as a sequence of characters.
    pub open spec fn spec_message(self) -> Seq<char> {
        match self {
            DaemonError::ForkFailed => "fork failed"@,
            DaemonError::WaitFailed => "waiting for the child failed"@,
            DaemonError::ChildFailedToFork => "Child did not launch correctly"@,
            DaemonError::ChildSetsidFailed => "Child setsid failed"@,
            DaemonError::GrandchildChdirFailed => "GrandChild chdir failed"@,
            DaemonError::GrandchildOpenDevNullFailed => "GrandChild open /dev/null failed"@,
            DaemonError::GrandchildFailedTooSoon => "GrandChild failed too soon"@,
            DaemonError::UnrecognizedExitCode { .. } => "Unspecified error code"@,
        }
    }

    /// A human-readable description of the failure.
    pub fn message(&self) -> (r: &'static str)
        ensures
            r@ == self.spec_message(),
    {
        match self {
            DaemonError::ForkFailed => "fork failed",
            DaemonError::WaitFailed => "waiting for the child failed",
            DaemonError::ChildFailedToFork => "Child did not launch correctly",
            DaemonError::ChildSetsidFailed => "Child setsid failed",
            DaemonError::GrandchildChdirFailed => "GrandChild chdir failed",
            DaemonError::GrandchildOpenDevNullFailed => "GrandChild open /dev/null failed",
            DaemonError::GrandchildFailedTooSoon => "GrandChild failed too soon",
            DaemonError::UnrecognizedExitCode { .. } => "Unspecified error code",
        }
    }

    /// The raw exit status carried by an unrecognized-exit-code failure, and
    /// nothing for every other failure.
    pub fn raw_code(&self) -> (r: Option<i32>)
        ensures
            r == (match *self {
                DaemonError::UnrecognizedExitCode { code } => Some(code),
                _ => None::<i32>,
            }),
    {
        match self {
            DaemonError::UnrecognizedExitCode { code } => Some(*code),
            _ => None,
        }
    }
}

} // verus!
