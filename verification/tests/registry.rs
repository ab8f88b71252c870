use magic_control::events::{CheckCommand, EventValue, Mode};
use magic_control::registry::{RegistryError, TrayMenuState};

fn cmd(id: &str, checked: bool) -> CheckCommand {
    CheckCommand { item_id: id.to_string(), checked }
}

#[test]
fn defaults_match_documented_startup_state() {
    let s = TrayMenuState::new();
    assert_eq!(s.mode.selected, 0);
    assert_eq!(s.size.selected, 0);
    assert_eq!(s.sens.selected, 1);
    assert!(s.dot.checked);
    assert!(s.toast.checked);
    assert_eq!(s.mode.id, "mode_menu");
    assert_eq!(s.size.id, "size_menu");
    assert_eq!(s.sens.id, "sens_menu");
    assert_eq!(s.dot.id, "feedback_dot");
    assert_eq!(s.toast.id, "feedback_toast");
    let ids: Vec<&str> = s.size.options.iter().map(|o| o.id.as_str()).collect();
    assert_eq!(ids, vec!["size_small", "size_mid", "size_large"]);
    assert_eq!(s.sens.options[1].value, EventValue::SensHundredths { hundredths: 4 });
    assert_eq!(s.mode.options[0].value, EventValue::ModeName { mode: Mode::Laser });
}

#[test]
fn default_check_commands_mark_exactly_the_selected_option() {
    let s = TrayMenuState::new();
    assert_eq!(
        s.mode.check_commands(),
        vec![cmd("mode_laser", true), cmd("mode_off", false)]
    );
    assert_eq!(
        s.sens.check_commands(),
        vec![cmd("sens_low", false), cmd("sens_mid", true), cmd("sens_high", false)]
    );
}

#[test]
fn select_moves_selection_and_reasserts_all_siblings() {
    let mut s = TrayMenuState::new();
    let cmds = s.select("size_menu", "size_large").unwrap();
    assert_eq!(s.size.selected, 2);
    assert_eq!(
        cmds,
        vec![cmd("size_small", false), cmd("size_mid", false), cmd("size_large", true)]
    );
    assert_eq!(s.mode.selected, 0);
    assert_eq!(s.sens.selected, 1);
}

#[test]
fn select_already_selected_is_idempotent() {
    let mut s = TrayMenuState::new();
    s.select("mode_menu", "mode_off").unwrap();
    let once = s.clone();
    let cmds = s.select("mode_menu", "mode_off").unwrap();
    assert_eq!(s, once);
    assert_eq!(cmds, vec![cmd("mode_laser", false), cmd("mode_off", true)]);
}

#[test]
fn select_unknown_group_or_option_fails_and_changes_nothing() {
    let mut s = TrayMenuState::new();
    let before = s.clone();
    assert_eq!(s.select("volume_menu", "size_mid"), Err(RegistryError::UnknownId));
    assert_eq!(s.select("size_menu", "size_huge"), Err(RegistryError::UnknownId));
    assert_eq!(s.select("size_menu", "mode_off"), Err(RegistryError::UnknownId));
    assert_eq!(s, before);
}

#[test]
fn toggle_flips_and_unknown_toggle_fails() {
    let mut s = TrayMenuState::new();
    assert_eq!(s.toggle("feedback_dot"), Ok(false));
    assert!(!s.dot.checked);
    assert_eq!(s.toggle("feedback_dot"), Ok(true));
    assert!(s.dot.checked);
    assert_eq!(s.toggle("feedback_blink"), Err(RegistryError::UnknownId));
    assert!(s.toast.checked);
}

#[test]
fn set_toggle_checked_records_without_reinverting() {
    let mut s = TrayMenuState::new();
    assert_eq!(s.set_toggle_checked("feedback_toast", false), Ok(()));
    assert!(!s.toast.checked);
    assert_eq!(s.set_toggle_checked("feedback_toast", false), Ok(()));
    assert!(!s.toast.checked);
    assert_eq!(s.set_toggle_checked("status", true), Err(RegistryError::UnknownId));
}

#[test]
fn position_of_finds_members_only() {
    let s = TrayMenuState::new();
    assert_eq!(s.sens.position_of("sens_high"), Some(2));
    assert_eq!(s.sens.position_of("size_mid"), None);
}
