//! End-to-end checks of the worker state machine and event translation.

use splinux::classify::classify;
use splinux::translate::display_button_index;
use splinux::translate::GamepadButton;
use splinux::translate::InputEvent;
use splinux::translate::MouseButton;
use splinux::translate::RelAxisKind;
use splinux::translate::AbsAxisKind;
use splinux::translate::StickAxis;
use splinux::translate::SyntheticAction;
use splinux::types::BackendCommand;
use splinux::types::ClientError;
use splinux::types::DeviceType;
use splinux::worker::CommandPoll;
use splinux::worker::SinkKind;
use splinux::worker::Worker;
use splinux::worker::WorkerPhase;

fn key(code: u16, value: i32) -> InputEvent {
    InputEvent::Key { code, value }
}

fn rel(axis: RelAxisKind, value: i32) -> InputEvent {
    InputEvent::Relative { axis, value }
}

fn abs(axis: AbsAxisKind, value: i32) -> InputEvent {
    InputEvent::Absolute { axis, value }
}

/// Build a worker whose capability check yielded `t`, with its sink
/// already constructed.
fn configured(t: DeviceType) -> Worker {
    let mut w = Worker::new(Some(t));
    assert!(w.sink_to_build().is_some());
    w.sink_built();
    assert_eq!(w.phase(), WorkerPhase::Configured);
    w
}

#[test]
fn mouse_scenario_buttons_then_motion() {
    // capability bits match only the mouse signature
    assert_eq!(classify(false, true, false), DeviceType::Mouse);
    let mut w = configured(DeviceType::Mouse);
    let events = vec![
        key(272, 1),
        key(272, 0),
        rel(RelAxisKind::X, 5),
        rel(RelAxisKind::Y, -3),
    ];
    let out = w.translate_batch(&events);
    assert_eq!(
        out,
        vec![
            SyntheticAction::ButtonPress { button: MouseButton::Left },
            SyntheticAction::ButtonRelease { button: MouseButton::Left },
            SyntheticAction::RelativeMove { dx: 5, dy: 0 },
            SyntheticAction::RelativeMove { dx: 0, dy: -3 },
        ]
    );
}

#[test]
fn gamepad_scenario_south_button() {
    // capability bits match only the gamepad signature
    assert_eq!(classify(true, false, false), DeviceType::Gamepad);
    let mut w = Worker::new(Some(DeviceType::Gamepad));
    assert_eq!(w.sink_to_build(), Some(SinkKind::Controller));
    w.sink_built();
    let events = vec![key(304, 1), key(304, 0)];
    let out = w.translate_batch(&events);
    assert_eq!(
        out,
        vec![
            SyntheticAction::ControllerButton { button: GamepadButton::A, pressed: true },
            SyntheticAction::ControllerButton { button: GamepadButton::A, pressed: false },
        ]
    );
}

#[test]
fn ambiguous_device_stays_silent() {
    // keyboard and mouse signatures both present: terminal Unknown
    assert_eq!(classify(false, true, true), DeviceType::Unknown);
    let mut w = Worker::new(Some(DeviceType::Unknown));
    assert_eq!(w.sink_to_build(), None);
    let events = vec![
        key(272, 1),
        key(30, 1),
        rel(RelAxisKind::X, 7),
        abs(AbsAxisKind::Y, 12),
        key(304, 1),
        InputEvent::Other,
    ];
    let out = w.translate_batch(&events);
    assert!(out.is_empty());
    assert_eq!(w.sink_to_build(), None);
    assert_eq!(w.phase(), WorkerPhase::Unconfigured);
    assert_eq!(w.devicetype, DeviceType::Unknown);
}

#[test]
fn plain_key_press_autorepeat_release() {
    let mut w = configured(DeviceType::Keyboard);
    let events = vec![key(30, 1), key(30, 2), key(30, 2), key(30, 0)];
    let out = w.translate_batch(&events);
    // key code 30 plus the fixed offset 8 gives display key code 38
    assert_eq!(
        out,
        vec![
            SyntheticAction::KeyPress { keycode: 38 },
            SyntheticAction::KeyRelease { keycode: 38 },
        ]
    );
}

#[test]
fn display_keycode_wraps_into_one_byte() {
    let mut w = configured(DeviceType::Keyboard);
    let out = w.translate_batch(&vec![key(250, 1), key(300, 1)]);
    assert_eq!(
        out,
        vec![
            SyntheticAction::KeyPress { keycode: (250u16 + 8) as u8 },
            SyntheticAction::KeyPress { keycode: (300 % 256 + 8) as u8 },
        ]
    );
}

#[test]
fn mouse_buttons_map_left_right_middle() {
    for (code, button, index) in [
        (272u16, MouseButton::Left, 1u8),
        (273, MouseButton::Right, 3),
        (274, MouseButton::Middle, 2),
    ] {
        let mut w = configured(DeviceType::Mouse);
        let out = w.translate_batch(&vec![key(code, 1), key(code, 0)]);
        assert_eq!(
            out,
            vec![
                SyntheticAction::ButtonPress { button },
                SyntheticAction::ButtonRelease { button },
            ]
        );
        assert_eq!(display_button_index(button), index);
    }
}

#[test]
fn wheel_always_pairs_press_with_release() {
    let mut w = configured(DeviceType::Mouse);
    let out = w.translate_batch(&vec![rel(RelAxisKind::Wheel, 1)]);
    assert_eq!(
        out,
        vec![
            SyntheticAction::ButtonPress { button: MouseButton::ScrollUp },
            SyntheticAction::ButtonRelease { button: MouseButton::ScrollUp },
        ]
    );
    let out = w.translate_batch(&vec![rel(RelAxisKind::Wheel, -1)]);
    assert_eq!(
        out,
        vec![
            SyntheticAction::ButtonPress { button: MouseButton::ScrollDown },
            SyntheticAction::ButtonRelease { button: MouseButton::ScrollDown },
        ]
    );
    assert_eq!(display_button_index(MouseButton::ScrollUp), 4);
    assert_eq!(display_button_index(MouseButton::ScrollDown), 5);
}

#[test]
fn relative_motion_accumulates_exactly() {
    let mut w = configured(DeviceType::Mouse);
    let deltas = [3i32, -7, 11, 0, 25, -1];
    let events: Vec<InputEvent> = deltas.iter().map(|d| rel(RelAxisKind::X, *d)).collect();
    let out = w.translate_batch(&events);
    assert_eq!(out.len(), deltas.len());
    let mut total = 0i64;
    for a in &out {
        match a {
            SyntheticAction::RelativeMove { dx, dy } => {
                assert_eq!(*dy, 0);
                total += *dx as i64;
            }
            other => panic!("unexpected action {:?}", other),
        }
    }
    let expected: i64 = deltas.iter().map(|d| *d as i64).sum();
    assert_eq!(total, expected);
}

#[test]
fn gamepad_buttons_map_by_fixed_table() {
    let table = [
        (304u16, GamepadButton::A),
        (305, GamepadButton::B),
        (306, GamepadButton::Mode),
        (307, GamepadButton::X),
        (308, GamepadButton::Y),
        (309, GamepadButton::Mode),
        (310, GamepadButton::TL),
        (311, GamepadButton::TR),
        (312, GamepadButton::TL2),
        (313, GamepadButton::TR2),
        (314, GamepadButton::Select),
        (315, GamepadButton::Start),
        (316, GamepadButton::Mode),
        (317, GamepadButton::ThumbL),
        (318, GamepadButton::ThumbR),
    ];
    for (code, button) in table {
        let mut w = configured(DeviceType::Gamepad);
        let out = w.translate_batch(&vec![key(code, 1)]);
        assert_eq!(
            out,
            vec![SyntheticAction::ControllerButton { button, pressed: true }]
        );
    }
}

#[test]
fn stick_axes_forwarded_on_controller_sink() {
    let mut w = configured(DeviceType::Gamepad);
    let out = w.translate_batch(&vec![
        abs(AbsAxisKind::X, 100),
        abs(AbsAxisKind::Y, -200),
        abs(AbsAxisKind::RX, 3),
        abs(AbsAxisKind::RY, 4),
        abs(AbsAxisKind::Other, 9),
    ]);
    assert_eq!(
        out,
        vec![
            SyntheticAction::StickPosition { axis: StickAxis::X, value: 100 },
            SyntheticAction::StickPosition { axis: StickAxis::Y, value: -200 },
            SyntheticAction::StickPosition { axis: StickAxis::RX, value: 3 },
            SyntheticAction::StickPosition { axis: StickAxis::RY, value: 4 },
        ]
    );
}

#[test]
fn cross_kind_events_are_dropped_per_sink() {
    // a controller sink ignores pointer and keyboard events
    let mut w = configured(DeviceType::Gamepad);
    let out = w.translate_batch(&vec![key(272, 1), key(30, 1), rel(RelAxisKind::X, 5)]);
    assert!(out.is_empty());
    // a display sink ignores controller events
    let mut w = configured(DeviceType::Mouse);
    let out = w.translate_batch(&vec![key(304, 1), abs(AbsAxisKind::X, 5)]);
    assert!(out.is_empty());
}

#[test]
fn events_before_configuration_are_dropped() {
    let mut w = Worker::new(None);
    assert_eq!(w.phase(), WorkerPhase::Unconfigured);
    assert_eq!(w.sink_to_build(), None);
    // the first revealing event classifies but is not forwarded
    let out = w.translate_batch(&vec![key(272, 1)]);
    assert!(out.is_empty());
    assert_eq!(w.devicetype, DeviceType::Mouse);
    assert_eq!(w.phase(), WorkerPhase::Configuring);
    assert_eq!(w.sink_to_build(), Some(SinkKind::Display));
    w.sink_built();
    let out = w.translate_batch(&vec![key(272, 0)]);
    assert_eq!(
        out,
        vec![SyntheticAction::ButtonRelease { button: MouseButton::Left }]
    );
}

#[test]
fn classification_never_changes_after_first_signature() {
    let mut w = Worker::new(None);
    // the very first event is a stick report: the device is a gamepad
    let out = w.translate_batch(&vec![abs(AbsAxisKind::X, 1)]);
    assert!(out.is_empty());
    assert_eq!(w.devicetype, DeviceType::Gamepad);
    w.sink_built();
    // later pointer-looking events do not re-classify
    let _ = w.translate_batch(&vec![key(272, 1), rel(RelAxisKind::X, 2)]);
    assert_eq!(w.devicetype, DeviceType::Gamepad);
}

#[test]
fn autorepeat_of_unclassified_device_reveals_nothing() {
    let mut w = Worker::new(None);
    let out = w.translate_batch(&vec![key(30, 2)]);
    assert!(out.is_empty());
    assert_eq!(w.devicetype, DeviceType::Unknown);
    assert_eq!(w.phase(), WorkerPhase::Unconfigured);
    // a real press classifies
    let _ = w.translate_batch(&vec![key(30, 1)]);
    assert_eq!(w.devicetype, DeviceType::Keyboard);
}

#[test]
fn terminate_stops_within_one_cycle() {
    let mut w = configured(DeviceType::Mouse);
    let r = w.handle_poll(CommandPoll::Received(BackendCommand::Terminate));
    assert_eq!(r, Ok(true));
    assert_eq!(w.phase(), WorkerPhase::Stopped);
}

#[test]
fn empty_poll_changes_nothing() {
    let mut w = configured(DeviceType::Keyboard);
    let r = w.handle_poll(CommandPoll::Empty);
    assert_eq!(r, Ok(false));
    assert_eq!(w.phase(), WorkerPhase::Configured);
}

#[test]
fn disconnected_channel_is_fatal() {
    let mut w = configured(DeviceType::Keyboard);
    let r = w.handle_poll(CommandPoll::Disconnected);
    assert_eq!(r, Err(ClientError::ChannelClosed));
    assert_eq!(w.phase(), WorkerPhase::Stopped);
}

#[test]
fn sink_failure_stops_the_worker() {
    let mut w = Worker::new(Some(DeviceType::Mouse));
    assert_eq!(w.sink_to_build(), Some(SinkKind::Display));
    w.fatal_error();
    assert_eq!(w.phase(), WorkerPhase::Stopped);
}
