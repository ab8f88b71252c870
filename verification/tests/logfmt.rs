use magic_control::logfmt::{log_dir_path, log_file_path, log_line_text};
use magic_control::str_eq;

#[test]
fn log_lines_carry_the_bracketed_prefix() {
    assert_eq!(log_line_text("magic-control", "press_key left"), "[magic-control] press_key left");
    assert_eq!(log_line_text("magic-control", ""), "[magic-control] ");
}

#[test]
fn log_paths_are_rooted_in_the_home_directory() {
    assert_eq!(log_dir_path("/Users/pat"), "/Users/pat/Library/Logs/MagicControl");
    assert_eq!(
        log_file_path("/Users/pat"),
        "/Users/pat/Library/Logs/MagicControl/magic-control.log"
    );
}

#[test]
fn str_eq_compares_by_characters() {
    assert!(str_eq("mode_laser", "mode_laser"));
    assert!(!str_eq("mode_laser", "mode_off"));
    assert!(!str_eq("size_mid", "size_midi"));
    assert!(str_eq("", ""));
}
