use vstd::prelude::*;

use crate::decode::{NATIVE_KEY_PRESS, NATIVE_MOTION_NOTIFY};

verus! {

/// The device-event range a capture session subscribes to: one contiguous
/// range from the first key event type through the last motion event type,
/// covering the key, button and motion categories together.  No
/// finer-grained category filtering is supported.
///
/// The session shell feeds this range into the interception context it
/// creates on the control connection; everything else about session setup
/// (opening the two connections, putting the control connection into
/// synchronous mode, failing fatally when any step yields a null handle) is
/// connection plumbing and lives with the shell.
pub fn device_event_range() -> (r: (u8, u8))
    ensures
        r.0 == NATIVE_KEY_PRESS,
        r.1 == NATIVE_MOTION_NOTIFY,
        r.0 <= r.1,
{
    (NATIVE_KEY_PRESS, NATIVE_MOTION_NOTIFY)
}

} // verus!
