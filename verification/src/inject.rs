use vstd::prelude::*;

use crate::encode::{convert_native, convert_native_spec, warp_request, NativeDescriptor};
use crate::events::EventType;

verus! {

/// The one recoverable injection error: raised uniformly whether focus could
/// not be resolved or the event could not be encoded, with no finer
/// diagnostic for the caller.
#[derive(Clone, Copy, Debug, PartialEq, Eq, Structural)]
pub struct SimulateError;

/// The native null window identifier.  A focus query that yields it means
/// no window holds input focus, and injection must fail rather than send.
pub const NULL_WINDOW: u64 = 0;

/// What the injection shell must do for one simulated event: send a
/// descriptor to the focused window (with propagation enabled and an empty
/// event mask), or warp the pointer to the given coordinates.  Either way
/// the connection is flushed and synchronized afterwards.
#[derive(Clone, Copy, Debug, PartialEq, Eq, Structural)]
pub enum Injection {
    Send(NativeDescriptor),
    Warp { x: i32, y: i32 },
}

/// The injection plan for one uniform event given the freshly resolved
/// focus window: an error when focus resolved to the null window, a pointer
/// warp for motion, and the encoder's descriptor for everything else.
pub open spec fn plan_simulate_spec(event_type: EventType, focus_window: u64) -> Result<
    Injection,
    SimulateError,
> {
    if focus_window == NULL_WINDOW {
        Err(SimulateError)
    } else {
        match event_type {
            EventType::MouseMove { x, y } => Ok(Injection::Warp { x, y }),
            _ => match convert_native_spec(event_type, focus_window) {
                Ok(Some(d)) => Ok(Injection::Send(d)),
                _ => Err(SimulateError),
            },
        }
    }
}

/// Decides how one simulated event reaches the server.
///
/// `focus_window` is the window the focus query resolved, re-resolved by the
/// caller on every call because focus can move between calls.  A null focus
/// window fails with `SimulateError` before any descriptor is produced;
/// otherwise the event is handed to the encoder and the resulting descriptor
/// or warp request becomes the plan.  Any encoding failure also collapses to
/// `SimulateError`.
pub fn plan_simulate(event_type: &EventType, focus_window: u64) -> (r: Result<
    Injection,
    SimulateError,
>)
    ensures
        r == plan_simulate_spec(*event_type, focus_window),
{
    if focus_window == NULL_WINDOW {
        return Err(SimulateError);
    }
    match convert_native(event_type, focus_window) {
        Ok(Some(descriptor)) => Ok(Injection::Send(descriptor)),
        Ok(None) => match warp_request(event_type) {
            Some((x, y)) => Ok(Injection::Warp { x, y }),
            None => Err(SimulateError),
        },
        Err(_) => Err(SimulateError),
    }
}

} // verus!
