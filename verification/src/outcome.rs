//! What the state gate hands back: a decision on a state that was read, and the
//! error that a calling operation propagates.

use vstd::prelude::*;
use crate::condition::Condition;

verus! {

/// The decision of the state gate on a state that was read.
#[derive(Clone, Copy, Debug, PartialEq, Eq, Structural)]
pub enum GateResult {
    /// No condition blocks the operation.
    Allowed,
    /// The named condition blocks the operation.
    Denied(Condition),
}

/// Why an operation must abort.
///
/// `E` is the error of whatever read the state; the state gate hands it on as it
/// got it.
#[derive(Clone, Debug, PartialEq, Eq)]
pub enum GateError<E> {
    /// The state of the group could not be read, so no condition was
    /// evaluated.
    StateLoadError(E),
    /// The state was read, and the named condition blocks the operation.
    ConditionDenied(Condition),
}

impl GateResult {
    /// The decision as the result that an operation propagates: `Allowed` is
    /// success, `Denied` is the error that names the same condition.
    pub open spec fn as_result<E>(self) -> Result<(), GateError<E>> {
        match self {
            GateResult::Allowed => Ok(()),
            GateResult::Denied(condition) => Err(GateError::ConditionDenied(condition)),
        }
    }

    /// Turns the decision into the result that an operation propagates.
    pub fn into_result<E>(self) -> (result: Result<(), GateError<E>>)
        ensures
            result == self.as_result::<E>(),
    {
        match self {
            GateResult::Allowed => Ok(()),
            GateResult::Denied(condition) => Err(GateError::ConditionDenied(condition)),
        }
    }
}

} // verus!
