use magic_control::status::StatusChannel;
use magic_control::window::OverlayWindowState;

#[test]
fn update_before_the_entry_exists_is_a_silent_no_op() {
    let mut status = StatusChannel::new();
    assert!(!status.update("ready"));
    assert_eq!(status.current_text(), None);
    status.attach("waiting");
    assert_eq!(status.current_text(), Some(&"waiting".to_string()));
    assert!(status.update("detected"));
    assert_eq!(status.current_text(), Some(&"detected".to_string()));
}

#[test]
fn update_after_attach_overwrites_the_text() {
    let mut status = StatusChannel::new();
    status.attach("waiting");
    assert!(status.update("ready"));
    assert!(status.update("ready"));
    assert_eq!(status.current_text(), Some(&"ready".to_string()));
}

#[test]
fn click_through_follows_the_requested_flag() {
    let mut w = OverlayWindowState::new();
    assert!(!w.click_through);
    w.set_click_through(true);
    assert!(w.click_through);
    w.set_click_through(true);
    assert!(w.click_through);
    w.set_click_through(false);
    assert!(!w.click_through);
}
