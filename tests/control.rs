use kb_layout_daemon::mode::{initial_mode, mode_from_lowercase, CaptureMode, DaemonControl};

#[test]
fn set_mode_rejects_unknown_name() {
    let mut d = DaemonControl::new(CaptureMode::Grab);
    assert!(!d.set_mode("bogus"));
    assert_eq!(d.mode(), CaptureMode::Grab);
    assert_eq!(d.get_mode(), "grab");
    assert!(d.set_mode("passive"));
    assert_eq!(d.get_mode(), "passive");
    assert_eq!(d.mode(), CaptureMode::Passive);
}

#[test]
fn set_mode_ignores_case() {
    let mut d = DaemonControl::new(CaptureMode::Passive);
    assert!(d.set_mode("GRAB"));
    assert_eq!(d.get_mode(), "grab");
    assert!(d.set_mode("Passive"));
    assert_eq!(d.get_mode(), "passive");
    assert!(!d.set_mode(""));
    assert!(!d.set_mode("grab "));
    assert_eq!(d.get_mode(), "passive");
}

#[test]
fn toggle_mode_flips_and_names_new_mode() {
    let mut d = DaemonControl::new(CaptureMode::Grab);
    assert_eq!(d.toggle_mode(), "passive");
    assert_eq!(d.mode(), CaptureMode::Passive);
    assert_eq!(d.toggle_mode(), "grab");
    assert_eq!(d.get_mode(), "grab");
}

#[test]
fn mode_names_are_read_exactly() {
    assert_eq!(mode_from_lowercase("passive"), Some(CaptureMode::Passive));
    assert_eq!(mode_from_lowercase("grab"), Some(CaptureMode::Grab));
    assert_eq!(mode_from_lowercase("Grab"), None);
    assert_eq!(mode_from_lowercase("bogus"), None);
}

#[test]
fn initial_mode_is_grab_unless_passive() {
    assert_eq!(initial_mode("passive"), CaptureMode::Passive);
    assert_eq!(initial_mode("PASSIVE"), CaptureMode::Passive);
    assert_eq!(initial_mode("grab"), CaptureMode::Grab);
    assert_eq!(initial_mode("anything"), CaptureMode::Grab);
    assert_eq!(initial_mode(""), CaptureMode::Grab);
}
