use vstd::prelude::*;

use crate::clock::now;
use crate::decode::{decode_record, decode_record_spec};
use crate::events::{Event, EventType};

verus! {

/// The owned single slot holding the active listener.
///
/// At most one listener is active per capture session: the session takes the
/// dispatcher at construction and holds it for its lifetime, and every
/// decoded event is handed to the listener directly, synchronously, on the
/// decoding thread — no queueing, no buffering.  A listener that blocks or
/// panics blocks or aborts the delivery path; that is an accepted design
/// constraint, so listeners must stay fast and non-throwing.
pub struct Dispatcher<F> where F: Fn(Event) {
    pub callback: F,
}

impl<F> Dispatcher<F> where F: Fn(Event) {
    /// The listener accepts every event; capture must only be started with
    /// such a listener, since the decoder may hand it any decoded event.
    pub open spec fn accepts_all(self) -> bool {
        forall|e: Event| call_requires(self.callback, (e,))
    }

    /// Installs `callback` as the sole listener of this dispatcher.
    pub fn new(callback: F) -> (r: Dispatcher<F>)
        ensures
            r.callback == callback,
    {
        Dispatcher { callback }
    }

    /// Invokes the listener with one decoded event, directly on the calling
    /// thread.
    pub fn dispatch(&self, event: Event)
        requires
            call_requires(self.callback, (event,)),
    {
        (self.callback)(event)
    }

    /// Handles one intercepted record, exactly as the capture callback must:
    /// decodes it (discarding anything not from the server, anything too
    /// short and anything the decoding table drops), stamps a surviving
    /// event with the capture time taken now, and dispatches it to the
    /// listener.  Returns the decoded event type, which is exactly the
    /// decoder's verdict on the record; the listener ran if and only if that
    /// verdict was an event.
    pub fn handle_record(&self, category: i32, data: &[u8]) -> (r: Option<EventType>)
        requires
            self.accepts_all(),
        ensures
            r == decode_record_spec(category, data@),
    {
        match decode_record(category, data) {
            Some(event_type) => {
                let time = now();
                let event = Event { event_type, time, name: None };
                self.dispatch(event);
                Some(event_type)
            },
            None => None,
        }
    }
}

} // verus!
