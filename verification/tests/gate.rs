use state_gate::{
    decide, evaluate, first_denied, group_paused, ordered_conditions, Condition, GateError,
    GateResult, GroupState,
};

/// A stand-in for the error of whatever reads the state.
#[derive(Clone, Debug, PartialEq, Eq)]
enum ReadFailure {
    Missing,
    Malformed(u32),
}

const PAUSED: GroupState = GroupState { paused: true };
const RUNNING: GroupState = GroupState { paused: false };

#[test]
fn paused_group_is_denied() {
    let result = evaluate::<ReadFailure>(Ok(PAUSED));
    assert_eq!(result, Err(GateError::ConditionDenied(Condition::GroupPaused)));
}

#[test]
fn running_group_is_allowed() {
    let result = evaluate::<ReadFailure>(Ok(RUNNING));
    assert_eq!(result, Ok(()));
}

#[test]
fn failed_read_is_a_load_error() {
    let result = evaluate(Err(ReadFailure::Missing));
    assert_eq!(result, Err(GateError::StateLoadError(ReadFailure::Missing)));
}

#[test]
fn failed_read_keeps_its_cause() {
    let result = evaluate(Err(ReadFailure::Malformed(17)));
    assert_eq!(result, Err(GateError::StateLoadError(ReadFailure::Malformed(17))));
    assert_ne!(result, Err(GateError::StateLoadError(ReadFailure::Malformed(18))));
    assert_ne!(result, Err(GateError::StateLoadError(ReadFailure::Missing)));
}

#[test]
fn load_error_differs_from_denial() {
    let unread = evaluate(Err(ReadFailure::Missing));
    let paused = evaluate::<ReadFailure>(Ok(PAUSED));
    assert!(matches!(unread, Err(GateError::StateLoadError(_))));
    assert!(matches!(paused, Err(GateError::ConditionDenied(_))));
    assert_ne!(unread, paused);
}

#[test]
fn paused_group_is_never_ok() {
    assert!(evaluate::<ReadFailure>(Ok(PAUSED)).is_err());
    assert!(evaluate::<()>(Ok(PAUSED)).is_err());
    assert!(group_paused::<ReadFailure>(Ok(PAUSED)).is_err());
}

#[test]
fn evaluating_twice_gives_the_same_result() {
    for state in [PAUSED, RUNNING] {
        let first = evaluate::<ReadFailure>(Ok(state));
        let second = evaluate::<ReadFailure>(Ok(state));
        assert_eq!(first, second);
    }
    let first = evaluate(Err(ReadFailure::Malformed(3)));
    let second = evaluate(Err(ReadFailure::Malformed(3)));
    assert_eq!(first, second);
}

#[test]
fn evaluation_leaves_the_state_alone() {
    let state = GroupState { paused: true };
    let _ = decide(&state);
    let _ = evaluate::<ReadFailure>(Ok(state));
    assert_eq!(state, GroupState { paused: true });
}

#[test]
fn a_changed_flag_changes_the_result() {
    let mut state = GroupState { paused: true };
    assert!(evaluate::<ReadFailure>(Ok(state)).is_err());
    state.paused = false;
    assert_eq!(evaluate::<ReadFailure>(Ok(state)), Ok(()));
    state.paused = true;
    assert_eq!(
        evaluate::<ReadFailure>(Ok(state)),
        Err(GateError::ConditionDenied(Condition::GroupPaused))
    );
}

#[test]
fn decide_follows_the_pause_flag() {
    assert_eq!(decide(&PAUSED), GateResult::Denied(Condition::GroupPaused));
    assert_eq!(decide(&RUNNING), GateResult::Allowed);
}

#[test]
fn pause_check_alone() {
    assert_eq!(
        group_paused::<ReadFailure>(Ok(PAUSED)),
        Err(GateError::ConditionDenied(Condition::GroupPaused))
    );
    assert_eq!(group_paused::<ReadFailure>(Ok(RUNNING)), Ok(()));
    assert_eq!(
        group_paused(Err(ReadFailure::Missing)),
        Err(GateError::StateLoadError(ReadFailure::Missing))
    );
}

#[test]
fn pause_check_agrees_with_the_gate() {
    for state in [PAUSED, RUNNING] {
        assert_eq!(group_paused::<ReadFailure>(Ok(state)), evaluate::<ReadFailure>(Ok(state)));
    }
    assert_eq!(
        group_paused(Err(ReadFailure::Malformed(1))),
        evaluate(Err(ReadFailure::Malformed(1)))
    );
}

#[test]
fn condition_check() {
    assert_eq!(
        Condition::GroupPaused.check(&PAUSED),
        GateResult::Denied(Condition::GroupPaused)
    );
    assert_eq!(Condition::GroupPaused.check(&RUNNING), GateResult::Allowed);
}

#[test]
fn condition_name() {
    assert_eq!(Condition::GroupPaused.name(), "GroupPaused");
}

#[test]
fn evaluation_order_is_fixed() {
    assert_eq!(ordered_conditions(), [Condition::GroupPaused]);
    assert_eq!(ordered_conditions(), ordered_conditions());
}

#[test]
fn first_denied_reports_the_earliest() {
    let twice = [Condition::GroupPaused, Condition::GroupPaused];
    assert_eq!(first_denied(&twice, &PAUSED), Some(0));
    let thrice = [Condition::GroupPaused; 3];
    for _ in 0..4 {
        assert_eq!(first_denied(&thrice, &PAUSED), Some(0));
    }
}

#[test]
fn first_denied_finds_none_on_a_running_group() {
    let twice = [Condition::GroupPaused, Condition::GroupPaused];
    assert_eq!(first_denied(&twice, &RUNNING), None);
    assert_eq!(first_denied(&ordered_conditions(), &RUNNING), None);
}

#[test]
fn first_denied_on_no_conditions() {
    assert_eq!(first_denied(&[], &PAUSED), None);
    assert_eq!(first_denied(&[], &RUNNING), None);
}

#[test]
fn decision_as_result() {
    assert_eq!(GateResult::Allowed.into_result::<ReadFailure>(), Ok(()));
    assert_eq!(
        GateResult::Denied(Condition::GroupPaused).into_result::<ReadFailure>(),
        Err(GateError::ConditionDenied(Condition::GroupPaused))
    );
}
