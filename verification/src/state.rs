//! The administrative state of a group, as the state gate sees it.

use vstd::prelude::*;

verus! {

/// A snapshot of the flags of a group that decide whether operations against
/// it may proceed.
///
/// The snapshot belongs to whoever read it: the state gate looks at it for
/// the length of one evaluation and keeps nothing of it afterwards.
#[derive(Clone, Copy, Debug, PartialEq, Eq, Structural)]
pub struct GroupState {
    /// Set while an administrator has suspended the group.
    pub paused: bool,
}

} // verus!
