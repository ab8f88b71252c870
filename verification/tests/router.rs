use magic_control::events::{CheckCommand, ConfigEvent, EventValue, Mode};
use magic_control::registry::TrayMenuState;
use magic_control::router::{handle_menu_click, FeedbackSnapshot, RouteAction};

fn cmd(id: &str, checked: bool) -> CheckCommand {
    CheckCommand { item_id: id.to_string(), checked }
}

fn ev(name: &str, value: EventValue) -> ConfigEvent {
    ConfigEvent { name: name.to_string(), value }
}

fn defaults_snap() -> FeedbackSnapshot {
    FeedbackSnapshot { dot_checked: true, toast_checked: true }
}

fn emitted(action: &RouteAction) -> ConfigEvent {
    match action {
        RouteAction::Emit { event, .. } => event.clone(),
        other => panic!("expected an emitting action, got {:?}", other),
    }
}

#[test]
fn clicking_mode_off_from_defaults() {
    let mut s = TrayMenuState::new();
    let action = handle_menu_click(&mut s, "mode_off", defaults_snap());
    assert_eq!(s.mode.selected, 1);
    assert_eq!(
        action,
        RouteAction::Emit {
            checks: vec![cmd("mode_laser", false), cmd("mode_off", true)],
            event: ev("set_mode", EventValue::ModeName { mode: Mode::Off }),
        }
    );
    assert_eq!(s.size.selected, 0);
    assert_eq!(s.sens.selected, 1);
    assert!(s.dot.checked && s.toast.checked);
}

#[test]
fn clicking_sens_high_then_sens_low() {
    let mut s = TrayMenuState::new();
    let first = handle_menu_click(&mut s, "sens_high", defaults_snap());
    let second = handle_menu_click(&mut s, "sens_low", defaults_snap());
    assert_eq!(
        emitted(&first),
        ev("set_sensitivity", EventValue::SensHundredths { hundredths: 7 })
    );
    assert_eq!(
        emitted(&second),
        ev("set_sensitivity", EventValue::SensHundredths { hundredths: 2 })
    );
    assert_eq!(s.sens.selected, 0);
    match second {
        RouteAction::Emit { checks, .. } => assert_eq!(
            checks,
            vec![cmd("sens_low", true), cmd("sens_mid", false), cmd("sens_high", false)]
        ),
        other => panic!("expected an emitting action, got {:?}", other),
    }
}

#[test]
fn event_table_round_trip() {
    let table: Vec<(&str, ConfigEvent)> = vec![
        ("mode_laser", ev("set_mode", EventValue::ModeName { mode: Mode::Laser })),
        ("mode_off", ev("set_mode", EventValue::ModeName { mode: Mode::Off })),
        ("size_small", ev("set_pointer_size", EventValue::SizePx { px: 5 })),
        ("size_mid", ev("set_pointer_size", EventValue::SizePx { px: 10 })),
        ("size_large", ev("set_pointer_size", EventValue::SizePx { px: 15 })),
        ("sens_low", ev("set_sensitivity", EventValue::SensHundredths { hundredths: 2 })),
        ("sens_mid", ev("set_sensitivity", EventValue::SensHundredths { hundredths: 4 })),
        ("sens_high", ev("set_sensitivity", EventValue::SensHundredths { hundredths: 7 })),
    ];
    for (id, expected) in table {
        let mut s = TrayMenuState::new();
        let action = handle_menu_click(&mut s, id, defaults_snap());
        assert_eq!(emitted(&action), expected, "identifier {}", id);
    }
}

#[test]
fn mode_payloads_spell_laser_and_off() {
    assert_eq!(Mode::Laser.payload_text(), "laser");
    assert_eq!(Mode::Off.payload_text(), "off");
}

#[test]
fn numeric_payloads_convert_to_the_wire_floats() {
    assert_eq!(5 as f64, 5.0);
    assert_eq!(10 as f64, 10.0);
    assert_eq!(15 as f64, 15.0);
    assert_eq!(2 as f64 / 100.0, 0.02);
    assert_eq!(4 as f64 / 100.0, 0.04);
    assert_eq!(7 as f64 / 100.0, 0.07);
}

#[test]
fn feedback_click_takes_post_click_state_without_reinverting() {
    let mut s = TrayMenuState::new();
    let snap = FeedbackSnapshot { dot_checked: false, toast_checked: true };
    let action = handle_menu_click(&mut s, "feedback_dot", snap);
    assert!(!s.dot.checked);
    assert!(s.toast.checked);
    assert_eq!(
        action,
        RouteAction::Emit {
            checks: vec![],
            event: ev("set_feedback_dot", EventValue::Flag { on: false }),
        }
    );
    let action = handle_menu_click(&mut s, "feedback_toast", snap);
    assert!(s.toast.checked);
    assert_eq!(
        action,
        RouteAction::Emit {
            checks: vec![],
            event: ev("set_feedback_toast", EventValue::Flag { on: true }),
        }
    );
}

#[test]
fn quit_terminates_and_mutates_nothing() {
    let mut s = TrayMenuState::new();
    let before = s.clone();
    let action = handle_menu_click(&mut s, "quit", defaults_snap());
    assert_eq!(action, RouteAction::Quit);
    assert_eq!(s, before);
}

#[test]
fn unknown_identifier_is_a_no_op() {
    let mut s = TrayMenuState::new();
    let before = s.clone();
    let action = handle_menu_click(&mut s, "brightness_high", defaults_snap());
    assert_eq!(action, RouteAction::Ignore);
    assert_eq!(s, before);
    let action = handle_menu_click(&mut s, "", defaults_snap());
    assert_eq!(action, RouteAction::Ignore);
    assert_eq!(s, before);
}

#[test]
fn clicking_a_selected_option_again_is_idempotent() {
    let mut s = TrayMenuState::new();
    let first = handle_menu_click(&mut s, "size_mid", defaults_snap());
    let after_first = s.clone();
    let second = handle_menu_click(&mut s, "size_mid", defaults_snap());
    assert_eq!(s, after_first);
    assert_eq!(first, second);
}
