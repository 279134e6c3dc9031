use vstd::prelude::*;

use crate::decode::{
    NATIVE_BUTTON_PRESS, NATIVE_BUTTON_RELEASE, NATIVE_KEY_PRESS, NATIVE_KEY_RELEASE,
    WHEEL_DOWN_BUTTON, WHEEL_UP_BUTTON,
};
use crate::events::EventType;

verus! {

/// The native "happened just now" time sentinel placed in synthesized
/// descriptors.
pub const CURRENT_TIME: u64 = 0;

/// Raised when an event cannot be given a native form.  No event of the
/// uniform model currently hits it: every variant either has a descriptor or
/// is an immediate pointer warp.
#[derive(Clone, Copy, Debug, PartialEq, Eq, Structural)]
pub struct EncodeError;

/// A fully-populated native key or button descriptor, ready to be copied
/// field for field into the native event union and sent to the server.
///
/// `detail` is the keycode (key events) or button number (button events).
/// The encoder targets the focused window for `window`, `root` and
/// `subwindow` alike, stamps the current-time sentinel, and zeroes every
/// positional and state field: this layer does not attempt coordinate or
/// modifier-state synthesis.
#[derive(Clone, Copy, Debug, PartialEq, Eq, Structural)]
pub struct NativeDescriptor {
    pub kind: u8,
    pub detail: u8,
    pub serial: u64,
    pub send_event: i32,
    pub window: u64,
    pub root: u64,
    pub subwindow: u64,
    pub time: u64,
    pub x: i32,
    pub y: i32,
    pub x_root: i32,
    pub y_root: i32,
    pub state: u32,
    pub same_screen: i32,
}

/// The descriptor the encoder builds: the given kind and detail aimed at the
/// focused window, every other field at its neutral value.
pub open spec fn built_descriptor(kind: u8, detail: u8, window: u64) -> NativeDescriptor {
    NativeDescriptor {
        kind,
        detail,
        serial: 0u64,
        send_event: 0i32,
        window,
        root: window,
        subwindow: window,
        time: CURRENT_TIME,
        x: 0i32,
        y: 0i32,
        x_root: 0i32,
        y_root: 0i32,
        state: 0u32,
        same_screen: 0i32,
    }
}

/// The button code a wheel step is encoded as: button 5 for a downward step
/// (positive vertical delta), button 4 otherwise.  Only the vertical delta
/// drives the choice; a horizontal delta has no native encoding and is
/// ignored.  This pairs with the decoding table, which reads button 4 as an
/// upward step and button 5 as a downward one.
pub open spec fn wheel_button_spec(delta_y: i64) -> u8 {
    if delta_y > 0 {
        WHEEL_DOWN_BUTTON
    } else {
        WHEEL_UP_BUTTON
    }
}

/// What the encoder returns for each uniform event: a key or button
/// descriptor carrying the event's own code, a wheel step turned back into a
/// press of its wheel button, and no descriptor at all for motion, which is
/// applied as an immediate pointer warp instead.
pub open spec fn convert_native_spec(event_type: EventType, window: u64) -> Result<
    Option<NativeDescriptor>,
    EncodeError,
> {
    match event_type {
        EventType::KeyPress { code } => Ok(
            Some(built_descriptor(NATIVE_KEY_PRESS, code, window)),
        ),
        EventType::KeyRelease { code } => Ok(
            Some(built_descriptor(NATIVE_KEY_RELEASE, code, window)),
        ),
        EventType::ButtonPress { code } => Ok(
            Some(built_descriptor(NATIVE_BUTTON_PRESS, code, window)),
        ),
        EventType::ButtonRelease { code } => Ok(
            Some(built_descriptor(NATIVE_BUTTON_RELEASE, code, window)),
        ),
        EventType::MouseMove { .. } => Ok(None),
        EventType::Wheel { delta_x: _, delta_y } => Ok(
            Some(built_descriptor(NATIVE_BUTTON_PRESS, wheel_button_spec(delta_y), window)),
        ),
    }
}

/// The pointer-warp request an event asks for: motion events carry their
/// target coordinates, every other event warps nothing.
pub open spec fn warp_request_spec(event_type: EventType) -> Option<(i32, i32)> {
    match event_type {
        EventType::MouseMove { x, y } => Some((x, y)),
        _ => None,
    }
}

/// Builds the native descriptor for one uniform event, aimed at the focused
/// window `window`.
///
/// Motion yields `Ok(None)`: it has no deferred descriptor and must instead
/// be applied at once through the warp request of [`warp_request`].  Every
/// other variant yields its fully-populated descriptor, so the result is
/// `Ok` for every input.
pub fn convert_native(event_type: &EventType, window: u64) -> (r: Result<
    Option<NativeDescriptor>,
    EncodeError,
>)
    ensures
        r == convert_native_spec(*event_type, window),
        r is Ok,
{
    match *event_type {
        EventType::KeyPress { code } => Ok(
            Some(build_descriptor(NATIVE_KEY_PRESS, code, window)),
        ),
        EventType::KeyRelease { code } => Ok(
            Some(build_descriptor(NATIVE_KEY_RELEASE, code, window)),
        ),
        EventType::ButtonPress { code } => Ok(
            Some(build_descriptor(NATIVE_BUTTON_PRESS, code, window)),
        ),
        EventType::ButtonRelease { code } => Ok(
            Some(build_descriptor(NATIVE_BUTTON_RELEASE, code, window)),
        ),
        EventType::MouseMove { .. } => Ok(None),
        EventType::Wheel { delta_y, .. } => {
            let code: u8 = if delta_y > 0 {
                WHEEL_DOWN_BUTTON
            } else {
                WHEEL_UP_BUTTON
            };
            Ok(Some(build_descriptor(NATIVE_BUTTON_PRESS, code, window)))
        },
    }
}

/// Builds the one descriptor shape the encoder uses: `kind` and `detail`
/// aimed at `window`, all remaining fields neutral.
pub fn build_descriptor(kind: u8, detail: u8, window: u64) -> (r: NativeDescriptor)
    ensures
        r == built_descriptor(kind, detail, window),
{
    NativeDescriptor {
        kind,
        detail,
        serial: 0u64,
        send_event: 0i32,
        window,
        root: window,
        subwindow: window,
        time: CURRENT_TIME,
        x: 0i32,
        y: 0i32,
        x_root: 0i32,
        y_root: 0i32,
        state: 0u32,
        same_screen: 0i32,
    }
}

/// Returns the pointer-warp request of one uniform event: the target
/// coordinates for motion, nothing for every other variant.
pub fn warp_request(event_type: &EventType) -> (r: Option<(i32, i32)>)
    ensures
        r == warp_request_spec(*event_type),
{
    match *event_type {
        EventType::MouseMove { x, y } => Some((x, y)),
        _ => None,
    }
}

} // verus!
