use vstd::prelude::*;

verus! {

/// Platform-neutral description of one input occurrence.
///
/// `code` is the native key or button code as it appears on the wire (one
/// byte).  Motion coordinates are carried as `i32`, wide enough for the
/// 16-bit native coordinate space.  Wheel deltas are signed steps; on this
/// backend only the vertical delta has a native encoding.
#[derive(Clone, Copy, Debug, PartialEq, Eq, Structural)]
pub enum EventType {
    KeyPress { code: u8 },
    KeyRelease { code: u8 },
    ButtonPress { code: u8 },
    ButtonRelease { code: u8 },
    MouseMove { x: i32, y: i32 },
    Wheel { delta_x: i64, delta_y: i64 },
}

/// A decoded input occurrence stamped with the capture time.
///
/// Immutable once constructed: built by the decoder (capture path) or by a
/// caller (injection path) and consumed exactly once by dispatch or by the
/// injector.
#[derive(Debug)]
pub struct Event {
    pub event_type: EventType,
    pub time: std::time::SystemTime,
    pub name: Option<String>,
}

} // verus!
