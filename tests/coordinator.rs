use kb_layout_daemon::config::Config;
use kb_layout_daemon::coordinator::{
    ConfirmStep, LayoutCoordinator, SetOutcome, SetReply, SwitchAction, SwitchError, CONFIRM_TIMEOUT_MICROS,
};
use kb_layout_daemon::keys::{KeyEvent, EV_KEY};
use kb_layout_daemon::matcher::match_keyboard_config;
use kb_layout_daemon::mode::CaptureMode;
use kb_layout_daemon::monitor::{DeviceMonitor, LoopStep};

/// Runs one switch request against a service that answers `reply` and then
/// reports `reported`; returns the number of set-layout calls made.
fn switch_to(c: &mut LayoutCoordinator, target: u32, reply: SetReply, reported: u32) -> (usize, Result<(), SwitchError>) {
    match c.begin_switch(target) {
        SwitchAction::AlreadyActive => (0, Ok(())),
        SwitchAction::SetLayout(t) => match c.finish_set(t, reply, true) {
            Err(e) => (1, Err(e)),
            Ok(SetOutcome::Applied) => (1, Ok(())),
            Ok(SetOutcome::AwaitConfirmation) => {
                let mut elapsed = 0u64;
                loop {
                    match c.confirm_poll(t, Some(reported), elapsed) {
                        ConfirmStep::PollAgain => elapsed += 100,
                        _ => return (1, Ok(())),
                    }
                }
            }
        },
    }
}

#[test]
fn coordinator_starts_from_queried_layout_or_zero() {
    assert_eq!(LayoutCoordinator::new(Some(3)).current(), 3);
    assert_eq!(LayoutCoordinator::new(None).current(), 0);
}

#[test]
fn switching_to_active_layout_is_a_no_op() {
    let c = LayoutCoordinator::new(Some(2));
    assert_eq!(c.begin_switch(2), SwitchAction::AlreadyActive);
    assert_eq!(c.begin_switch(1), SwitchAction::SetLayout(1));
}

#[test]
fn repeated_switch_makes_one_service_call() {
    let mut c = LayoutCoordinator::new(Some(0));
    let (calls1, r1) = switch_to(&mut c, 1, SetReply::Accepted, 1);
    let (calls2, r2) = switch_to(&mut c, 1, SetReply::Accepted, 1);
    assert_eq!(calls1 + calls2, 1);
    assert!(r1.is_ok() && r2.is_ok());
    assert_eq!(c.current(), 1);
}

#[test]
fn refused_set_layout_fails_and_keeps_layout() {
    let mut c = LayoutCoordinator::new(Some(0));
    assert_eq!(c.finish_set(1, SetReply::Refused, true), Err(SwitchError::Refused));
    assert_eq!(c.current(), 0);
    assert_eq!(c.finish_set(1, SetReply::Refused, false), Err(SwitchError::Refused));
    assert_eq!(c.current(), 0);
    let (calls, r) = switch_to(&mut c, 1, SetReply::Refused, 1);
    assert_eq!(calls, 1);
    assert_eq!(r, Err(SwitchError::Refused));
    assert_eq!(c.current(), 0);
}

#[test]
fn unreachable_service_fails_and_keeps_layout() {
    let mut c = LayoutCoordinator::new(Some(2));
    assert_eq!(c.finish_set(0, SetReply::Unreachable, true), Err(SwitchError::Unreachable));
    assert_eq!(c.current(), 2);
}

#[test]
fn accepted_without_confirmation_applies_at_once() {
    let mut c = LayoutCoordinator::new(Some(0));
    assert_eq!(c.finish_set(1, SetReply::Accepted, false), Ok(SetOutcome::Applied));
    assert_eq!(c.current(), 1);
}

#[test]
fn confirmation_records_layout_when_reported() {
    let mut c = LayoutCoordinator::new(Some(0));
    assert_eq!(c.finish_set(1, SetReply::Accepted, true), Ok(SetOutcome::AwaitConfirmation));
    assert_eq!(c.current(), 0);
    assert_eq!(c.confirm_poll(1, Some(0), 100), ConfirmStep::PollAgain);
    assert_eq!(c.current(), 0);
    assert_eq!(c.confirm_poll(1, None, 200), ConfirmStep::PollAgain);
    assert_eq!(c.confirm_poll(1, Some(1), 300), ConfirmStep::Confirmed);
    assert_eq!(c.current(), 1);
}

#[test]
fn confirmation_timeout_records_layout_anyway() {
    let mut c = LayoutCoordinator::new(Some(0));
    assert_eq!(c.confirm_poll(1, Some(0), CONFIRM_TIMEOUT_MICROS - 1), ConfirmStep::PollAgain);
    assert_eq!(c.confirm_poll(1, Some(0), CONFIRM_TIMEOUT_MICROS), ConfirmStep::TimedOut);
    assert_eq!(c.current(), 1);
    assert_eq!(CONFIRM_TIMEOUT_MICROS, 50_000);
}

#[test]
fn press_on_second_keyboard_switches_once() {
    let config = Config::default();
    let lofree = match_keyboard_config("Lofree Flow", true, &config).unwrap();
    assert_eq!(lofree.layout_index, 1);
    let cherry = match_keyboard_config("CHERRY KC 1000", true, &config).unwrap();
    assert_eq!(cherry.layout_index, 0);

    let mut coord = LayoutCoordinator::new(Some(0));
    let mut m = DeviceMonitor::new(lofree.layout_index);
    assert!(matches!(m.begin_iteration(false, CaptureMode::Grab), LoopStep::Open { .. }));
    m.device_opened(CaptureMode::Grab);

    let press = vec![KeyEvent::new(EV_KEY, 30, 1), KeyEvent::new(0, 0, 0)];
    let mut set_layout_calls: Vec<u32> = Vec::new();
    for _ in 0..2 {
        let plan = m.on_batch(&press, coord.current());
        if let Some(target) = plan.switch_to {
            if let SwitchAction::SetLayout(t) = coord.begin_switch(target) {
                set_layout_calls.push(t);
                assert_eq!(coord.finish_set(t, SetReply::Accepted, true), Ok(SetOutcome::AwaitConfirmation));
                assert_eq!(coord.confirm_poll(t, Some(t), 100), ConfirmStep::Confirmed);
            }
        }
        assert!(plan.forward);
    }
    assert_eq!(set_layout_calls, vec![1]);
    assert_eq!(coord.current(), 1);
}
