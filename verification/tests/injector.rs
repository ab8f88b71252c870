use magic_control::injector::{
    finish_press, plan_press, InjectionOutcome, InjectorError, KeyEventStep, LEFT_ARROW_CODE,
    RIGHT_ARROW_CODE,
};

#[test]
fn left_press_plans_down_then_up_for_the_left_arrow() {
    let plan = plan_press("left", true).unwrap();
    assert_eq!(plan.code, LEFT_ARROW_CODE);
    assert_eq!(
        plan.steps,
        vec![
            KeyEventStep { code: 123, down: true },
            KeyEventStep { code: 123, down: false },
        ]
    );
}

#[test]
fn right_press_plans_down_then_up_for_the_right_arrow() {
    let plan = plan_press("right", true).unwrap();
    assert_eq!(plan.code, RIGHT_ARROW_CODE);
    assert_eq!(
        plan.steps,
        vec![
            KeyEventStep { code: 124, down: true },
            KeyEventStep { code: 124, down: false },
        ]
    );
}

#[test]
fn unknown_direction_fails_and_plans_nothing() {
    assert_eq!(plan_press("up", true), Err(InjectorError::UnsupportedDirection));
    assert_eq!(plan_press("down", true), Err(InjectorError::UnsupportedDirection));
    assert_eq!(plan_press("", true), Err(InjectorError::UnsupportedDirection));
}

#[test]
fn without_platform_support_every_direction_fails() {
    assert_eq!(plan_press("left", false), Err(InjectorError::UnsupportedPlatform));
    assert_eq!(plan_press("right", false), Err(InjectorError::UnsupportedPlatform));
    assert_eq!(plan_press("up", false), Err(InjectorError::UnsupportedPlatform));
}

#[test]
fn outcomes_map_to_the_documented_errors() {
    assert_eq!(
        finish_press(InjectionOutcome::SourceUnavailable),
        Err(InjectorError::EventSourceUnavailable)
    );
    assert_eq!(
        finish_press(InjectionOutcome::ConstructionFailed),
        Err(InjectorError::EventConstructionFailed)
    );
    assert_eq!(finish_press(InjectionOutcome::Delivered), Ok(()));
}

#[test]
fn error_messages_match_the_wire_strings() {
    assert_eq!(InjectorError::UnsupportedDirection.message(), "unknown direction");
    assert_eq!(InjectorError::UnsupportedPlatform.message(), "unsupported platform");
    assert_eq!(InjectorError::EventSourceUnavailable.message(), "event source failed");
    assert_eq!(InjectorError::EventConstructionFailed.message(), "key event failed");
}
