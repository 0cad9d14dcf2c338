//! The exit-code taxonomy: the closed, bidirectional mapping between the six
//! terminal outcomes of the bootstrap sequence and the integers 0 through 5.
//!
//! This mapping is the only channel by which a terminated process instance
//! communicates its failure reason to the instance waiting on it: the
//! terminating side encodes an outcome as its process exit status, and the
//! observing side decodes that status back into an outcome.

use vstd::prelude::*;

verus! {

/// One terminal outcome of the grandchild/child bootstrap sequence.
///
/// Every deliberate process exit in the intermediate child or the grandchild
/// uses exactly one of these values; any other observed exit status is
/// unrecognized and decoding it fails.
#[derive(Clone, Copy, Debug, PartialEq, Eq, Structural)]
pub enum ExitCodes {
    /// The grandchild survived its bootstrap window: daemonization succeeded.
    Success,
    /// The second fork, performed by the session leader, failed.
    ChildFailedToFork,
    /// The intermediate child could not become a session leader.
    ChildSetsidFailed,
    /// The grandchild could not change its working directory to the root.
    GrandchildChdirFailed,
    /// The grandchild could not open the null device for read and write.
    GrandchildOpenDevNullFailed,
    /// The grandchild exited before the liveness window elapsed.
    GrandchildFailedTooSoon,
}

impl ExitCodes {
    /// The integer this outcome is encoded as. Encoding is total: every
    /// outcome has exactly one integer, in order 0 through 5.
    pub open spec fn spec_code(self) -> i32 {
        match self {
            ExitCodes::Success => 0,
            ExitCodes::ChildFailedToFork => 1,
            ExitCodes::ChildSetsidFailed => 2,
            ExitCodes::GrandchildChdirFailed => 3,
            ExitCodes::GrandchildOpenDevNullFailed => 4,
            ExitCodes::GrandchildFailedTooSoon => 5,
        }
    }

    /// Encode this outcome as the process exit status it is transmitted as.
    pub fn code(self) -> (r: i32)
        ensures
            r == self.spec_code(),
    {
        match self {
            ExitCodes::Success => 0,
            ExitCodes::ChildFailedToFork => 1,
            ExitCodes::ChildSetsidFailed => 2,
            ExitCodes::GrandchildChdirFailed => 3,
            ExitCodes::GrandchildOpenDevNullFailed => 4,
            ExitCodes::GrandchildFailedTooSoon => 5,
        }
    }

    /// Decode an observed exit status integer. Integers 0 through 5 map back
    /// to the outcome they encode; any other integer is rejected, and the
    /// error carries the raw integer for diagnostics.
    pub fn try_from(value: i32) -> (r: Result<ExitCodes, i32>)
        ensures
            r == spec_try_from(value),
            r is Ok <==> 0 <= value <= 5,
            r is Err ==> r == Result::<ExitCodes, i32>::Err(value),
    {
        match value {
            0 => Ok(ExitCodes::Success),
            1 => Ok(ExitCodes::ChildFailedToFork),
            2 => Ok(ExitCodes::ChildSetsidFailed),
            3 => Ok(ExitCodes::GrandchildChdirFailed),
            4 => Ok(ExitCodes::GrandchildOpenDevNullFailed),
            5 => Ok(ExitCodes::GrandchildFailedTooSoon),
            _ => Err(value),
        }
    }
}

/// What decoding an exit status integer yields: the outcome encoded by the
/// integers 0 through 5, or the raw integer itself when it is unrecognized.
pub open spec fn spec_try_from(value: i32) -> Result<ExitCodes, i32> {
    if value == 0 {
        Result::Ok(ExitCodes::Success)
    } else if value == 1 {
        Result::Ok(ExitCodes::ChildFailedToFork)
    } else if value == 2 {
        Result::Ok(ExitCodes::ChildSetsidFailed)
    } else if value == 3 {
        Result::Ok(ExitCodes::GrandchildChdirFailed)
    } else if value == 4 {
        Result::Ok(ExitCodes::GrandchildOpenDevNullFailed)
    } else if value == 5 {
        Result::Ok(ExitCodes::GrandchildFailedTooSoon)
    } else {
        Result::Err(value)
    }
}

/// Round-trip law of the taxonomy: for every integer 0 through 5, decoding
/// and then re-encoding yields the original integer; for every other
/// integer, decoding fails and the error carries that integer.
pub proof fn lemma_exit_code_round_trip(value: i32)
    ensures
        0 <= value <= 5 ==> (spec_try_from(value) matches Ok(c) && c.spec_code() == value),
        !(0 <= value <= 5) ==> spec_try_from(value) == Result::<ExitCodes, i32>::Err(value),
{
}

/// The other direction of the round trip: every outcome decodes back from
/// its own encoding.
pub proof fn lemma_exit_code_encode_decode(c: ExitCodes)
    ensures
        spec_try_from(c.spec_code()) == Result::<ExitCodes, i32>::Ok(c),
{
}

} // verus!
