//! The laws this backend keeps, stated over the same spec functions its
//! contracts use and proved once and for all.

use vstd::prelude::*;

use crate::decode::{
    decode_record_spec, map_native_spec, FROM_SERVER, NATIVE_BUTTON_PRESS, NATIVE_BUTTON_RELEASE,
    NATIVE_KEY_PRESS, NATIVE_KEY_RELEASE, WHEEL_DOWN_BUTTON, WHEEL_UP_BUTTON,
};
use crate::encode::{
    convert_native_spec, warp_request_spec, wheel_button_spec, EncodeError, NativeDescriptor,
};
use crate::events::EventType;
use crate::inject::{plan_simulate_spec, Injection, SimulateError, NULL_WINDOW};

verus! {

/// A button press with a wheel code always decodes to a wheel step — an
/// upward one (vertical delta -1) for button 4, a downward one (vertical
/// delta +1) for button 5, horizontal delta 0 either way — and never to a
/// button-press event.
pub proof fn lemma_wheel_press_decodes_to_wheel(code: u8, x: u16, y: u16)
    requires
        code == WHEEL_UP_BUTTON || code == WHEEL_DOWN_BUTTON,
    ensures
        code == WHEEL_UP_BUTTON ==> map_native_spec(NATIVE_BUTTON_PRESS, code, x, y)
            == Some(EventType::Wheel { delta_x: 0i64, delta_y: -1i64 }),
        code == WHEEL_DOWN_BUTTON ==> map_native_spec(NATIVE_BUTTON_PRESS, code, x, y)
            == Some(EventType::Wheel { delta_x: 0i64, delta_y: 1i64 }),
        !(map_native_spec(NATIVE_BUTTON_PRESS, code, x, y) matches Some(
            EventType::ButtonPress { .. },
        )),
{
}

/// A button release with a wheel code decodes to nothing at all — a wheel
/// step has no release — while a release with any other code decodes to a
/// button-release event carrying that code.
pub proof fn lemma_wheel_release_dropped(code: u8, x: u16, y: u16)
    ensures
        (code == WHEEL_UP_BUTTON || code == WHEEL_DOWN_BUTTON) ==> map_native_spec(
            NATIVE_BUTTON_RELEASE,
            code,
            x,
            y,
        ) is None,
        (code != WHEEL_UP_BUTTON && code != WHEEL_DOWN_BUTTON) ==> map_native_spec(
            NATIVE_BUTTON_RELEASE,
            code,
            x,
            y,
        ) == Some(EventType::ButtonRelease { code }),
{
}

/// Round trip, encoding first: encoding a single wheel step and then
/// decoding the resulting descriptor's type and code yields the same wheel
/// step back, for an upward and a downward step alike.
pub proof fn lemma_wheel_round_trip(delta_y: i64, window: u64, x: u16, y: u16)
    requires
        delta_y == 1i64 || delta_y == -1i64,
    ensures
        ({
            &&& convert_native_spec(EventType::Wheel { delta_x: 0i64, delta_y }, window)
                matches Ok(Some(d))
            &&& d.kind == NATIVE_BUTTON_PRESS
            &&& map_native_spec(d.kind, d.detail, x, y) == Some(
                EventType::Wheel { delta_x: 0i64, delta_y },
            )
        }),
{
}

/// Round trip, decoding first: a button press with a wheel code decodes to a
/// wheel step whose encoding is a button press with that same code again.
pub proof fn lemma_native_wheel_round_trip(code: u8, window: u64, x: u16, y: u16)
    requires
        code == WHEEL_UP_BUTTON || code == WHEEL_DOWN_BUTTON,
    ensures
        ({
            &&& map_native_spec(NATIVE_BUTTON_PRESS, code, x, y) matches Some(w)
            &&& convert_native_spec(w, window) matches Ok(Some(d))
            &&& d.kind == NATIVE_BUTTON_PRESS
            &&& d.detail == code
        }),
{
}

/// Encoding a key press or key release preserves the key code unchanged in
/// the descriptor's keycode field, under the matching native type.
pub proof fn lemma_key_code_preserved(code: u8, window: u64)
    ensures
        ({
            &&& convert_native_spec(EventType::KeyPress { code }, window) matches Ok(Some(d))
            &&& d.kind == NATIVE_KEY_PRESS
            &&& d.detail == code
        }),
        ({
            &&& convert_native_spec(EventType::KeyRelease { code }, window) matches Ok(Some(d))
            &&& d.kind == NATIVE_KEY_RELEASE
            &&& d.detail == code
        }),
{
}

/// Motion never yields a descriptor from the encoder: it yields exactly one
/// pointer-warp request instead, aimed at the motion's own coordinates.
pub proof fn lemma_mouse_move_warps(x: i32, y: i32, window: u64)
    ensures
        convert_native_spec(EventType::MouseMove { x, y }, window) == Ok::<
            Option<NativeDescriptor>,
            EncodeError,
        >(None),
        warp_request_spec(EventType::MouseMove { x, y }) == Some((x, y)),
{
}

/// Only motion warps the pointer: every other event has no warp request.
pub proof fn lemma_only_motion_warps(event_type: EventType)
    requires
        !(event_type matches EventType::MouseMove { .. }),
    ensures
        warp_request_spec(event_type) is None,
{
}

/// A record whose category is not "from server" decodes to nothing,
/// whatever its payload holds: it never reaches the mapping table, so
/// nothing is ever dispatched for it.
pub proof fn lemma_non_server_never_decodes(category: i32, bytes: Seq<u8>)
    requires
        category != FROM_SERVER,
    ensures
        decode_record_spec(category, bytes) is None,
{
}

/// When focus resolution yields the null window, simulation fails with
/// `SimulateError` for every event: no descriptor is sent and no warp is
/// performed.
pub proof fn lemma_null_focus_fails(event_type: EventType)
    ensures
        plan_simulate_spec(event_type, NULL_WINDOW) == Err::<Injection, SimulateError>(
            SimulateError,
        ),
{
}

/// With a live focus window, a wheel step's injection plan is a send — of a
/// button-press descriptor carrying the step's wheel button, aimed at the
/// focused window — never a warp and never an error.
pub proof fn lemma_wheel_plan_sends(delta_x: i64, delta_y: i64, focus_window: u64)
    requires
        focus_window != NULL_WINDOW,
    ensures
        ({
            &&& plan_simulate_spec(EventType::Wheel { delta_x, delta_y }, focus_window)
                matches Ok(Injection::Send(d))
            &&& d.kind == NATIVE_BUTTON_PRESS
            &&& d.detail == wheel_button_spec(delta_y)
            &&& d.window == focus_window
        }),
{
}

} // verus!
