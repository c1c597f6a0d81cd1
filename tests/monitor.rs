use kb_layout_daemon::keys::{KeyEvent, PressedKeys, EV_KEY};
use kb_layout_daemon::mode::CaptureMode;
use kb_layout_daemon::monitor::{classify_read_error, DeviceMonitor, LoopStep, ReadFailure, EAGAIN, ENODEV};

const EV_SYN: u16 = 0;
const EV_MSC: u16 = 4;

fn press(code: u16) -> KeyEvent {
    KeyEvent::new(EV_KEY, code, 1)
}

fn release(code: u16) -> KeyEvent {
    KeyEvent::new(EV_KEY, code, 0)
}

fn repeat(code: u16) -> KeyEvent {
    KeyEvent::new(EV_KEY, code, 2)
}

fn syn() -> KeyEvent {
    KeyEvent::new(EV_SYN, 0, 0)
}

fn sorted(mut v: Vec<u16>) -> Vec<u16> {
    v.sort();
    v
}

fn open_monitor(layout: u32, mode: CaptureMode) -> DeviceMonitor {
    let mut m = DeviceMonitor::new(layout);
    match m.begin_iteration(false, mode) {
        LoopStep::Open { release, mode: m2 } => {
            assert!(release.is_empty());
            assert_eq!(m2, mode);
        }
        _ => panic!("a fresh monitor opens its device first"),
    }
    m.device_opened(mode);
    m
}

#[test]
fn pressed_set_follows_press_release_repeat_sequence() {
    let mut keys = PressedKeys::new();
    let seq = vec![
        press(30), press(31), repeat(30), release(30), repeat(31), press(30), press(30),
        release(31), release(99), KeyEvent::new(EV_MSC, 30, 0), release(30), press(42),
    ];
    let mut model: std::collections::BTreeSet<u16> = std::collections::BTreeSet::new();
    let mut last_release: std::collections::BTreeSet<u16> = std::collections::BTreeSet::new();
    for e in &seq {
        keys.apply(e);
        if e.event_type == EV_KEY && e.value == 1 {
            model.insert(e.code);
            last_release.remove(&e.code);
        } else if e.event_type == EV_KEY && e.value == 0 {
            model.remove(&e.code);
            last_release.insert(e.code);
        }
        for code in &last_release {
            assert!(!keys.contains(*code));
        }
        for code in &model {
            assert!(keys.contains(*code));
        }
        assert_eq!(keys.len(), model.len());
    }
    assert_eq!(sorted(keys.take_all()), vec![42]);
    assert_eq!(keys.len(), 0);
}

#[test]
fn repeat_does_not_add_a_key() {
    let mut keys = PressedKeys::new();
    keys.apply(&repeat(5));
    assert!(!keys.contains(5));
    keys.apply(&press(5));
    keys.apply(&press(5));
    assert_eq!(keys.len(), 1);
}

#[test]
fn fresh_monitor_opens_in_current_mode() {
    let m = open_monitor(1, CaptureMode::Grab);
    assert_eq!(m.opened_in(), Some(CaptureMode::Grab));
    assert_eq!(m.layout_index(), 1);
    assert!(!m.is_stopped());
}

#[test]
fn monitor_reads_while_mode_is_unchanged() {
    let mut m = open_monitor(1, CaptureMode::Passive);
    assert!(matches!(m.begin_iteration(false, CaptureMode::Passive), LoopStep::Read));
}

#[test]
fn batch_with_press_asks_for_switch_and_forwards_in_grab() {
    let mut m = open_monitor(1, CaptureMode::Grab);
    let plan = m.on_batch(&vec![press(30), syn()], 0);
    assert_eq!(plan.switch_to, Some(1));
    assert!(plan.forward);
    assert!(m.is_held(30));
    let plan = m.on_batch(&vec![release(30), syn()], 0);
    assert_eq!(plan.switch_to, None);
    assert!(plan.forward);
    assert!(!m.is_held(30));
}

#[test]
fn batch_on_active_layout_needs_no_switch() {
    let mut m = open_monitor(1, CaptureMode::Grab);
    let plan = m.on_batch(&vec![press(30), syn()], 1);
    assert_eq!(plan.switch_to, None);
    assert!(plan.forward);
}

#[test]
fn passive_mode_never_forwards() {
    let mut m = open_monitor(0, CaptureMode::Passive);
    let plan = m.on_batch(&vec![press(30), syn()], 1);
    assert_eq!(plan.switch_to, Some(0));
    assert!(!plan.forward);
    assert!(m.is_held(30));
}

#[test]
fn empty_batch_is_not_forwarded() {
    let mut m = open_monitor(1, CaptureMode::Grab);
    let plan = m.on_batch(&Vec::new(), 0);
    assert_eq!(plan.switch_to, None);
    assert!(!plan.forward);
}

#[test]
fn mode_change_releases_exactly_the_held_keys() {
    let mut m = open_monitor(1, CaptureMode::Grab);
    m.on_batch(&vec![press(125), press(30), press(31), release(31), syn()], 1);
    match m.begin_iteration(false, CaptureMode::Passive) {
        LoopStep::Open { release, mode } => {
            assert_eq!(sorted(release), vec![30, 125]);
            assert_eq!(mode, CaptureMode::Passive);
        }
        _ => panic!("a mode change reopens the device"),
    }
    assert_eq!(m.held_count(), 0);
    assert_eq!(m.opened_in(), None);
}

#[test]
fn shutdown_releases_exactly_the_held_keys() {
    let mut m = open_monitor(1, CaptureMode::Grab);
    m.on_batch(&vec![press(56), syn()], 1);
    match m.begin_iteration(true, CaptureMode::Grab) {
        LoopStep::Stop { release } => assert_eq!(release, vec![56]),
        _ => panic!("shutdown stops the monitor"),
    }
    assert!(m.is_stopped());
    assert_eq!(m.held_count(), 0);
}

#[test]
fn shutdown_with_nothing_held_releases_nothing() {
    let mut m = open_monitor(1, CaptureMode::Grab);
    match m.begin_iteration(true, CaptureMode::Grab) {
        LoopStep::Stop { release } => assert!(release.is_empty()),
        _ => panic!("shutdown stops the monitor"),
    }
}

#[test]
fn read_errors_are_classified_by_os_code() {
    assert_eq!(classify_read_error(Some(ENODEV)), ReadFailure::Vanished);
    assert_eq!(classify_read_error(Some(19)), ReadFailure::Vanished);
    assert_eq!(classify_read_error(Some(EAGAIN)), ReadFailure::WouldBlock);
    assert_eq!(classify_read_error(Some(11)), ReadFailure::WouldBlock);
    assert_eq!(classify_read_error(Some(5)), ReadFailure::Other);
    assert_eq!(classify_read_error(None), ReadFailure::Other);
}

#[test]
fn vanished_device_ends_the_monitor() {
    let mut m = open_monitor(1, CaptureMode::Grab);
    assert_eq!(m.on_read_error(Some(ENODEV)), ReadFailure::Vanished);
    assert!(m.is_stopped());
    assert_eq!(m.opened_in(), None);
}

#[test]
fn would_block_keeps_reading() {
    let mut m = open_monitor(1, CaptureMode::Grab);
    assert_eq!(m.on_read_error(Some(EAGAIN)), ReadFailure::WouldBlock);
    assert!(!m.is_stopped());
    assert!(matches!(m.begin_iteration(false, CaptureMode::Grab), LoopStep::Read));
}

#[test]
fn other_read_error_reopens_and_releases_held_keys() {
    let mut m = open_monitor(1, CaptureMode::Grab);
    m.on_batch(&vec![press(30), syn()], 1);
    assert_eq!(m.on_read_error(Some(5)), ReadFailure::Other);
    assert!(!m.is_stopped());
    match m.begin_iteration(false, CaptureMode::Grab) {
        LoopStep::Open { release, mode } => {
            assert_eq!(release, vec![30]);
            assert_eq!(mode, CaptureMode::Grab);
        }
        _ => panic!("a closed device is reopened"),
    }
}

#[test]
fn failed_open_is_retried_with_nothing_to_release() {
    let mut m = DeviceMonitor::new(0);
    for _ in 0..3 {
        match m.begin_iteration(false, CaptureMode::Grab) {
            LoopStep::Open { release, .. } => assert!(release.is_empty()),
            _ => panic!("the device stays closed until opened"),
        }
    }
}
