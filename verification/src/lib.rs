//! A gate that decides whether an operation against a shared group may
//! proceed, given the group's administrative state as it was just read.
//!
//! The state gate is a pure decision: it looks at the state it is handed,
//! changes nothing, and keeps nothing between calls. An operation calls it before
//! it changes anything, and aborts on every result that is not success.

pub mod condition;
pub mod gate;
pub mod outcome;
pub mod state;

pub use condition::Condition;
pub use gate::{decide, evaluate, first_denied, group_paused, ordered_conditions};
pub use outcome::{GateError, GateResult};
pub use state::GroupState;
