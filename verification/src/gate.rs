//! The state gate itself: the order in which conditions are evaluated, the
//! decision on a state that was read, and the result that a calling
//! operation propagates.
//!
//! Conditions are evaluated in the order of [`evaluation_order`]. Only the
//! first one that denies is reported, and none after it is evaluated.

use vstd::prelude::*;
use crate::condition::Condition;
use crate::outcome::{GateError, GateResult};
use crate::state::GroupState;

verus! {

/// The conditions of the state gate, in the order in which they are
/// evaluated.
pub open spec fn evaluation_order() -> Seq<Condition> {
    seq![Condition::GroupPaused]
}

/// `index` is the place of the first of `conditions` that denies `state`:
/// that one denies, and none before it does.
pub open spec fn is_first_denial(conditions: Seq<Condition>, state: GroupState, index: int) -> bool {
    &&& 0 <= index < conditions.len()
    &&& conditions[index].denies(state)
    &&& forall|earlier: int| 0 <= earlier < index ==> !(#[trigger] conditions[earlier]).denies(state)
}

/// None of `conditions` denies `state`.
pub open spec fn none_denies(conditions: Seq<Condition>, state: GroupState) -> bool {
    forall|index: int| 0 <= index < conditions.len() ==> !(#[trigger] conditions[index]).denies(state)
}

/// The place of the first of `conditions` that denies `state`, if one does.
pub open spec fn first_denial(conditions: Seq<Condition>, state: GroupState) -> Option<int> {
    if exists|index: int| is_first_denial(conditions, state, index) {
        Some(choose|index: int| is_first_denial(conditions, state, index))
    } else {
        None
    }
}

/// The decision on `state` of a gate that evaluates `conditions` in their
/// order: denied by the first that denies, allowed if none does.
pub open spec fn decision_among(conditions: Seq<Condition>, state: GroupState) -> GateResult {
    match first_denial(conditions, state) {
        Some(index) => GateResult::Denied(conditions[index]),
        None => GateResult::Allowed,
    }
}

/// The decision of the state gate on `state`.
pub open spec fn decision(state: GroupState) -> GateResult {
    decision_among(evaluation_order(), state)
}

/// What the state gate returns for the outcome of reading the state: the
/// read's own failure if it failed, else the decision on the state that was
/// read.
pub open spec fn outcome<E>(loaded: Result<GroupState, E>) -> Result<(), GateError<E>> {
    match loaded {
        Err(cause) => Err(GateError::StateLoadError(cause)),
        Ok(state) => decision(state).as_result::<E>(),
    }
}

/// Two places cannot both be the first denial.
pub proof fn lemma_first_denial_is_unique(
    conditions: Seq<Condition>,
    state: GroupState,
    first: int,
    second: int,
)
    requires
        is_first_denial(conditions, state, first),
        is_first_denial(conditions, state, second),
    ensures
        first == second,
{
    if first < second {
        assert(!conditions[first].denies(state));
    } else if second < first {
        assert(!conditions[second].denies(state));
    }
}

/// A place that is the first denial is the one that `first_denial` names.
pub proof fn lemma_first_denial_found(conditions: Seq<Condition>, state: GroupState, index: int)
    requires
        is_first_denial(conditions, state, index),
    ensures
        first_denial(conditions, state) == Some(index),
        decision_among(conditions, state) == GateResult::Denied(conditions[index]),
{
    let chosen = choose|index: int| is_first_denial(conditions, state, index);
    lemma_first_denial_is_unique(conditions, state, chosen, index);
}

/// Where no condition denies, there is no first denial and the decision is
/// `Allowed`.
pub proof fn lemma_none_denies_allows(conditions: Seq<Condition>, state: GroupState)
    requires
        none_denies(conditions, state),
    ensures
        first_denial(conditions, state) is None,
        decision_among(conditions, state) == GateResult::Allowed,
{
    assert forall|index: int| !is_first_denial(conditions, state, index) by {
        if 0 <= index < conditions.len() {
            assert(!conditions[index].denies(state));
        }
    }
}

/// A condition that denies has a first denial at or before its own place.
pub proof fn lemma_denial_has_first(conditions: Seq<Condition>, state: GroupState, index: int) -> (first: int)
    requires
        0 <= index < conditions.len(),
        conditions[index].denies(state),
    ensures
        0 <= first <= index,
        is_first_denial(conditions, state, first),
    decreases index,
{
    if exists|earlier: int| 0 <= earlier < index && (#[trigger] conditions[earlier]).denies(state) {
        let earlier = choose|earlier: int| 0 <= earlier < index && (#[trigger] conditions[earlier]).denies(state);
        lemma_denial_has_first(conditions, state, earlier)
    } else {
        index
    }
}

/// The decision is `Allowed` exactly when no condition denies, and a
/// condition that it names stands in the order and denies.
pub proof fn lemma_decision_among_is_sound(conditions: Seq<Condition>, state: GroupState)
    ensures
        decision_among(conditions, state) == GateResult::Allowed <==> none_denies(conditions, state),
        decision_among(conditions, state) matches GateResult::Denied(reason) ==> reason.denies(state)
            && conditions.contains(reason),
{
    if none_denies(conditions, state) {
        lemma_none_denies_allows(conditions, state);
    } else {
        let index = choose|index: int| 0 <= index < conditions.len() && (#[trigger] conditions[index]).denies(state);
        let first = lemma_denial_has_first(conditions, state, index);
        lemma_first_denial_found(conditions, state, first);
    }
}

/// The order decides which condition is reported. Where two conditions deny
/// the same state, the one reported stands no later than the earlier of
/// the two, so the later one is never reported in its place.
pub proof fn lemma_earlier_denial_is_reported(
    conditions: Seq<Condition>,
    state: GroupState,
    earlier: int,
    later: int,
)
    requires
        0 <= earlier < later < conditions.len(),
        conditions[earlier].denies(state),
        conditions[later].denies(state),
    ensures
        first_denial(conditions, state) matches Some(index) && 0 <= index <= earlier && is_first_denial(
            conditions,
            state,
            index,
        ) && decision_among(conditions, state) == GateResult::Denied(conditions[index]),
        first_denial(conditions, state) != Some(later),
{
    let first = lemma_denial_has_first(conditions, state, earlier);
    lemma_first_denial_found(conditions, state, first);
}

/// Evaluating twice on a state that has not changed gives the same result
/// both times: the result depends on nothing but the outcome of the read.
pub proof fn lemma_unchanged_state_same_outcome<E>(first: Result<GroupState, E>, second: Result<GroupState, E>)
    requires
        first == second,
    ensures
        outcome(first) == outcome(second),
{
}

/// Evaluates `conditions` against `state` in their order and stops at the
/// first that denies. Returns its place, or `None` if none denies.
pub fn first_denied(conditions: &[Condition], state: &GroupState) -> (found: Option<usize>)
    ensures
        match found {
            Some(index) => is_first_denial(conditions@, *state, index as int),
            None => none_denies(conditions@, *state),
        },
        found matches Some(index) ==> first_denial(conditions@, *state) == Some(index as int),
        found is None ==> first_denial(conditions@, *state) is None,
{
    let mut index: usize = 0;
    while index < conditions.len()
        invariant
            index <= conditions@.len(),
            forall|earlier: int| 0 <= earlier < index ==> !(#[trigger] conditions@[earlier]).denies(*state),
        decreases conditions@.len() - index,
    {
        match conditions[index].check(state) {
            GateResult::Denied(_) => {
                proof {
                    lemma_first_denial_found(conditions@, *state, index as int);
                }
                return Some(index);
            },
            GateResult::Allowed => {},
        }
        index = index + 1;
    }
    proof {
        lemma_none_denies_allows(conditions@, *state);
    }
    None
}

/// The conditions of the state gate, in the order in which they are
/// evaluated.
pub fn ordered_conditions() -> (order: [Condition; 1])
    ensures
        order@ == evaluation_order(),
{
    let order = [Condition::GroupPaused];
    assert(order@ =~= evaluation_order());
    order
}

/// Decides on a state that was read: `Denied` by the first condition of the
/// evaluation order that blocks, `Allowed` if none does.
pub fn decide(state: &GroupState) -> (result: GateResult)
    ensures
        result == decision(*state),
        state.paused ==> result == GateResult::Denied(Condition::GroupPaused),
        !state.paused ==> result == GateResult::Allowed,
{
    let order = ordered_conditions();
    let result = match first_denied(order.as_slice(), state) {
        Some(index) => GateResult::Denied(order[index]),
        None => GateResult::Allowed,
    };
    proof {
        lemma_decision_by_pause_flag(*state);
    }
    result
}

/// With the present evaluation order the decision follows the pause flag.
pub proof fn lemma_decision_by_pause_flag(state: GroupState)
    ensures
        state.paused ==> decision(state) == GateResult::Denied(Condition::GroupPaused),
        !state.paused ==> decision(state) == GateResult::Allowed,
{
    let order = evaluation_order();
    if state.paused {
        assert(order[0].denies(state));
        lemma_first_denial_found(order, state, 0);
    } else {
        assert forall|index: int| 0 <= index < order.len() implies !(#[trigger] order[index]).denies(state) by {
            assert(order[index] == Condition::GroupPaused);
        }
        lemma_none_denies_allows(order, state);
    }
}

/// The state gate. `loaded` is the outcome of reading the state of the group for
/// this call. A failed read comes back as `StateLoadError` with the read's
/// own error, and no condition is evaluated. A state that was read is
/// decided as [`decide`] does: success if no condition blocks, else
/// `ConditionDenied` with the first condition that does.
pub fn evaluate<E>(loaded: Result<GroupState, E>) -> (result: Result<(), GateError<E>>)
    ensures
        result == outcome(loaded),
        loaded matches Err(cause) ==> result == Err::<(), GateError<E>>(GateError::StateLoadError(cause)),
        loaded matches Ok(state) && state.paused ==> result == Err::<(), GateError<E>>(
            GateError::ConditionDenied(Condition::GroupPaused),
        ),
        loaded matches Ok(state) && !state.paused ==> result == Ok::<(), GateError<E>>(()),
{
    match loaded {
        Err(cause) => Err(GateError::StateLoadError(cause)),
        Ok(state) => decide(&state).into_result(),
    }
}

/// The pause check alone. A failed read comes back as `StateLoadError`; a
/// group that was read and is paused is denied with `GroupPaused`; any other
/// group passes.
pub fn group_paused<E>(marginfi_group: Result<GroupState, E>) -> (result: Result<(), GateError<E>>)
    ensures
        match marginfi_group {
            Err(cause) => result == Err::<(), GateError<E>>(GateError::StateLoadError(cause)),
            Ok(state) => result == (if state.paused {
                Err::<(), GateError<E>>(GateError::ConditionDenied(Condition::GroupPaused))
            } else {
                Ok::<(), GateError<E>>(())
            }),
        },
{
    match marginfi_group {
        Err(cause) => Err(GateError::StateLoadError(cause)),
        Ok(state) => Condition::GroupPaused.check(&state).into_result(),
    }
}

} // verus!
