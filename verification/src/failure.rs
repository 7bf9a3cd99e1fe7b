//! Why a step of a workflow failed.

use vstd::prelude::*;
use vstd::string::StringExecFns;

verus! {

/// The reason a step failed. It carries no detail of the remote side.
#[derive(Clone, Copy, Debug, PartialEq, Eq, Structural)]
pub enum FailureReason {
    /// An outbound call could not be connected or was answered with a failure.
    DownstreamCallFailure,
    /// A sleep step's random draw fell under its configured failure chance.
    SimulatedFailure,
}

/// What a step of a workflow ends in.
pub type ThespianResult = Result<(), FailureReason>;

/// Success is success: a result that is no failure is the one success.
pub proof fn success_is_one(result: ThespianResult)
    ensures
        result is Ok ==> result == Ok::<(), FailureReason>(()),
{
    match result {
        Ok(unit) => {
            assert(unit == ());
        },
        Err(_) => {},
    }
}

impl FailureReason {
    /// The text that stands for this reason in logs and in the reply to a caller.
    pub open spec fn message_text(self) -> Seq<char> {
        match self {
            FailureReason::DownstreamCallFailure => "(ノಠ益ಠ)ノ彡┻━┻"@,
            FailureReason::SimulatedFailure => "¯\\_(ツ)_/¯"@,
        }
    }

    /// The opaque message of this reason.
    pub fn message(&self) -> (text: String)
        ensures
            text@ == self.message_text(),
    {
        match self {
            FailureReason::DownstreamCallFailure => String::from_str("(ノಠ益ಠ)ノ彡┻━┻"),
            FailureReason::SimulatedFailure => String::from_str("¯\\_(ツ)_/¯"),
        }
    }
}

} // verus!
