//! The named conditions under which the state gate denies an operation.

use vstd::prelude::*;
use crate::outcome::GateResult;
use crate::state::GroupState;

verus! {

/// A named administrative condition that blocks operations against a group.
///
/// The set is closed: a new condition is a new variant, with its rule in
/// [`Condition::denies`], its name in [`Condition::label`] and its place in
/// [`crate::gate::evaluation_order`].
#[derive(Clone, Copy, Debug, PartialEq, Eq, Structural)]
pub enum Condition {
    /// The group has been paused.
    GroupPaused,
}

impl Condition {
    /// Whether this condition blocks operations against a group in `state`.
    pub open spec fn denies(self, state: GroupState) -> bool {
        match self {
            Condition::GroupPaused => state.paused,
        }
    }

    /// The name under which this condition is reported.
    pub open spec fn label(self) -> Seq<char> {
        match self {
            Condition::GroupPaused => "GroupPaused"@,
        }
    }

    /// Evaluates this one condition against `state`: `Denied` with this
    /// condition as the reason if it blocks, `Allowed` otherwise.
    pub fn check(&self, state: &GroupState) -> (result: GateResult)
        ensures
            self.denies(*state) ==> result == GateResult::Denied(*self),
            !self.denies(*state) ==> result == GateResult::Allowed,
    {
        let blocked = match self {
            Condition::GroupPaused => state.paused,
        };
        if blocked {
            GateResult::Denied(*self)
        } else {
            GateResult::Allowed
        }
    }

    /// The name under which this condition is reported to an operator.
    pub fn name(&self) -> (name: &'static str)
        ensures
            name@ == self.label(),
    {
        match self {
            Condition::GroupPaused => "GroupPaused",
        }
    }
}

} // verus!
