use std::cell::RefCell;
use std::rc::Rc;
use std::time::Duration;

use rdev_linux::decode::{
    decode_record, map_native, parse_datum, DATUM_BYTES, FROM_SERVER, NATIVE_BUTTON_PRESS,
    NATIVE_BUTTON_RELEASE, NATIVE_KEY_PRESS, NATIVE_KEY_RELEASE, NATIVE_MOTION_NOTIFY,
    WHEEL_DOWN_BUTTON, WHEEL_UP_BUTTON,
};
use rdev_linux::dispatch::Dispatcher;
use rdev_linux::encode::{convert_native, warp_request, CURRENT_TIME};
use rdev_linux::events::{Event, EventType};
use rdev_linux::inject::{plan_simulate, Injection, SimulateError, NULL_WINDOW};
use rdev_linux::session::device_event_range;

/// Builds a native record payload in the fixed wire layout: type, code,
/// pad, four reserved words, the two little-endian coordinate words, one
/// trailing word.
fn record_bytes(xtype: u8, code: u8, x: u16, y: u16) -> Vec<u8> {
    let mut bytes = vec![0u8; DATUM_BYTES];
    bytes[0] = xtype;
    bytes[1] = code;
    bytes[20] = (x & 0xff) as u8;
    bytes[21] = (x >> 8) as u8;
    bytes[22] = (y & 0xff) as u8;
    bytes[23] = (y >> 8) as u8;
    bytes
}

#[test]
fn wheel_press_up_decodes_to_wheel() {
    let bytes = record_bytes(NATIVE_BUTTON_PRESS, WHEEL_UP_BUTTON, 0, 0);
    assert_eq!(
        decode_record(FROM_SERVER, &bytes),
        Some(EventType::Wheel { delta_x: 0, delta_y: -1 })
    );
}

#[test]
fn wheel_press_down_decodes_to_wheel() {
    let bytes = record_bytes(NATIVE_BUTTON_PRESS, WHEEL_DOWN_BUTTON, 0, 0);
    assert_eq!(
        decode_record(FROM_SERVER, &bytes),
        Some(EventType::Wheel { delta_x: 0, delta_y: 1 })
    );
}

#[test]
fn other_button_press_decodes_to_button_press() {
    let bytes = record_bytes(NATIVE_BUTTON_PRESS, 1, 0, 0);
    assert_eq!(
        decode_record(FROM_SERVER, &bytes),
        Some(EventType::ButtonPress { code: 1 })
    );
}

#[test]
fn wheel_release_is_dropped() {
    let up = record_bytes(NATIVE_BUTTON_RELEASE, WHEEL_UP_BUTTON, 0, 0);
    let down = record_bytes(NATIVE_BUTTON_RELEASE, WHEEL_DOWN_BUTTON, 0, 0);
    assert_eq!(decode_record(FROM_SERVER, &up), None);
    assert_eq!(decode_record(FROM_SERVER, &down), None);
}

#[test]
fn other_button_release_decodes_to_button_release() {
    let bytes = record_bytes(NATIVE_BUTTON_RELEASE, 3, 0, 0);
    assert_eq!(
        decode_record(FROM_SERVER, &bytes),
        Some(EventType::ButtonRelease { code: 3 })
    );
}

#[test]
fn key_records_decode_with_code() {
    let press = record_bytes(NATIVE_KEY_PRESS, 38, 0, 0);
    let release = record_bytes(NATIVE_KEY_RELEASE, 38, 0, 0);
    assert_eq!(
        decode_record(FROM_SERVER, &press),
        Some(EventType::KeyPress { code: 38 })
    );
    assert_eq!(
        decode_record(FROM_SERVER, &release),
        Some(EventType::KeyRelease { code: 38 })
    );
}

#[test]
fn motion_record_decodes_with_coordinates() {
    let bytes = record_bytes(NATIVE_MOTION_NOTIFY, 0, 300, 260);
    assert_eq!(
        decode_record(FROM_SERVER, &bytes),
        Some(EventType::MouseMove { x: 300, y: 260 })
    );
    let datum = parse_datum(&bytes).unwrap();
    assert_eq!(datum.x, 300);
    assert_eq!(datum.y, 260);
}

#[test]
fn unknown_type_is_dropped() {
    let bytes = record_bytes(99, 4, 0, 0);
    assert_eq!(decode_record(FROM_SERVER, &bytes), None);
}

#[test]
fn short_record_is_dropped() {
    let bytes = record_bytes(NATIVE_KEY_PRESS, 38, 0, 0);
    assert_eq!(decode_record(FROM_SERVER, &bytes[..DATUM_BYTES - 1]), None);
    assert_eq!(parse_datum(&[]), None);
}

#[test]
fn non_server_record_is_dropped() {
    let bytes = record_bytes(NATIVE_KEY_PRESS, 38, 0, 0);
    for category in 1..6 {
        assert_eq!(decode_record(category, &bytes), None);
    }
}

#[test]
fn wheel_round_trip_positive() {
    let descriptor = convert_native(&EventType::Wheel { delta_x: 0, delta_y: 1 }, 10)
        .unwrap()
        .unwrap();
    assert_eq!(descriptor.kind, NATIVE_BUTTON_PRESS);
    assert_eq!(descriptor.detail, WHEEL_DOWN_BUTTON);
    assert_eq!(
        map_native(descriptor.kind, descriptor.detail, 0, 0),
        Some(EventType::Wheel { delta_x: 0, delta_y: 1 })
    );
}

#[test]
fn wheel_round_trip_negative() {
    let descriptor = convert_native(&EventType::Wheel { delta_x: 0, delta_y: -1 }, 10)
        .unwrap()
        .unwrap();
    assert_eq!(descriptor.kind, NATIVE_BUTTON_PRESS);
    assert_eq!(descriptor.detail, WHEEL_UP_BUTTON);
    assert_eq!(
        map_native(descriptor.kind, descriptor.detail, 0, 0),
        Some(EventType::Wheel { delta_x: 0, delta_y: -1 })
    );
}

#[test]
fn wheel_zero_delta_encodes_up_button() {
    let descriptor = convert_native(&EventType::Wheel { delta_x: 0, delta_y: 0 }, 10)
        .unwrap()
        .unwrap();
    assert_eq!(descriptor.kind, NATIVE_BUTTON_PRESS);
    assert_eq!(descriptor.detail, WHEEL_UP_BUTTON);
}

#[test]
fn horizontal_wheel_delta_is_ignored() {
    let descriptor = convert_native(&EventType::Wheel { delta_x: 7, delta_y: 1 }, 10)
        .unwrap()
        .unwrap();
    assert_eq!(descriptor.kind, NATIVE_BUTTON_PRESS);
    assert_eq!(descriptor.detail, WHEEL_DOWN_BUTTON);
}

#[test]
fn key_codes_preserved_by_encoder() {
    let press = convert_native(&EventType::KeyPress { code: 38 }, 5)
        .unwrap()
        .unwrap();
    assert_eq!(press.kind, NATIVE_KEY_PRESS);
    assert_eq!(press.detail, 38);
    let release = convert_native(&EventType::KeyRelease { code: 255 }, 5)
        .unwrap()
        .unwrap();
    assert_eq!(release.kind, NATIVE_KEY_RELEASE);
    assert_eq!(release.detail, 255);
}

#[test]
fn button_codes_preserved_by_encoder() {
    let press = convert_native(&EventType::ButtonPress { code: 1 }, 5)
        .unwrap()
        .unwrap();
    assert_eq!(press.kind, NATIVE_BUTTON_PRESS);
    assert_eq!(press.detail, 1);
    let release = convert_native(&EventType::ButtonRelease { code: 2 }, 5)
        .unwrap()
        .unwrap();
    assert_eq!(release.kind, NATIVE_BUTTON_RELEASE);
    assert_eq!(release.detail, 2);
}

#[test]
fn descriptor_targets_focused_window_with_neutral_fields() {
    let descriptor = convert_native(&EventType::KeyPress { code: 38 }, 42)
        .unwrap()
        .unwrap();
    assert_eq!(descriptor.window, 42);
    assert_eq!(descriptor.root, 42);
    assert_eq!(descriptor.subwindow, 42);
    assert_eq!(descriptor.time, CURRENT_TIME);
    assert_eq!(descriptor.serial, 0);
    assert_eq!(descriptor.send_event, 0);
    assert_eq!(descriptor.x, 0);
    assert_eq!(descriptor.y, 0);
    assert_eq!(descriptor.x_root, 0);
    assert_eq!(descriptor.y_root, 0);
    assert_eq!(descriptor.state, 0);
    assert_eq!(descriptor.same_screen, 0);
}

#[test]
fn mouse_move_encodes_no_descriptor() {
    assert_eq!(
        convert_native(&EventType::MouseMove { x: 120, y: 45 }, 9),
        Ok(None)
    );
    assert_eq!(
        warp_request(&EventType::MouseMove { x: 120, y: 45 }),
        Some((120, 45))
    );
}

#[test]
fn only_motion_requests_a_warp() {
    assert_eq!(warp_request(&EventType::KeyPress { code: 38 }), None);
    assert_eq!(warp_request(&EventType::ButtonPress { code: 1 }), None);
    assert_eq!(warp_request(&EventType::Wheel { delta_x: 0, delta_y: 1 }), None);
}

#[test]
fn null_focus_simulate_error() {
    assert_eq!(
        plan_simulate(&EventType::KeyPress { code: 38 }, NULL_WINDOW),
        Err(SimulateError)
    );
    assert_eq!(
        plan_simulate(&EventType::MouseMove { x: 1, y: 2 }, NULL_WINDOW),
        Err(SimulateError)
    );
}

#[test]
fn wheel_simulate_plan_sends_button_press() {
    let plan = plan_simulate(&EventType::Wheel { delta_x: 0, delta_y: 1 }, 77).unwrap();
    match plan {
        Injection::Send(descriptor) => {
            assert_eq!(descriptor.kind, NATIVE_BUTTON_PRESS);
            assert_eq!(descriptor.detail, WHEEL_DOWN_BUTTON);
            assert_eq!(descriptor.window, 77);
        }
        Injection::Warp { .. } => panic!("a wheel step must be sent, not warped"),
    }
}

#[test]
fn mouse_move_simulate_plan_warps() {
    let plan = plan_simulate(&EventType::MouseMove { x: 120, y: 45 }, 77).unwrap();
    assert_eq!(plan, Injection::Warp { x: 120, y: 45 });
}

#[test]
fn key_press_capture_end_to_end() {
    let received: Rc<RefCell<Vec<Event>>> = Rc::new(RefCell::new(Vec::new()));
    let sink = received.clone();
    let dispatcher = Dispatcher::new(move |event: Event| {
        sink.borrow_mut().push(event);
    });
    let bytes = record_bytes(NATIVE_KEY_PRESS, 38, 0, 0);
    let decoded = dispatcher.handle_record(FROM_SERVER, &bytes);
    assert_eq!(decoded, Some(EventType::KeyPress { code: 38 }));
    let events = received.borrow();
    assert_eq!(events.len(), 1);
    assert_eq!(events[0].event_type, EventType::KeyPress { code: 38 });
    assert!(events[0].name.is_none());
    let age = events[0].time.elapsed().expect("capture time is in the past");
    assert!(age < Duration::from_secs(5));
}

#[test]
fn dropped_records_are_not_dispatched() {
    let count: Rc<RefCell<usize>> = Rc::new(RefCell::new(0));
    let sink = count.clone();
    let dispatcher = Dispatcher::new(move |_event: Event| {
        *sink.borrow_mut() += 1;
    });
    let release = record_bytes(NATIVE_BUTTON_RELEASE, WHEEL_UP_BUTTON, 0, 0);
    assert_eq!(dispatcher.handle_record(FROM_SERVER, &release), None);
    let key = record_bytes(NATIVE_KEY_PRESS, 38, 0, 0);
    assert_eq!(dispatcher.handle_record(1, &key), None);
    assert_eq!(*count.borrow(), 0);
}

#[test]
fn session_range_covers_keys_through_motion() {
    let (first, last) = device_event_range();
    assert_eq!(first, NATIVE_KEY_PRESS);
    assert_eq!(last, NATIVE_MOTION_NOTIFY);
}
