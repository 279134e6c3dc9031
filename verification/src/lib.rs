//! Verified core of an X11-style global input backend: the translation layer
//! between a platform-neutral event model (key, button, motion, wheel) and the
//! fixed-layout native records delivered by an event-interception runtime,
//! together with the synthesis path that turns a platform-neutral event back
//! into a native descriptor ready for injection.
//!
//! All decoding, encoding and injection decisions live here with contracts;
//! the raw connection handling (opening displays, the interception context,
//! sending events) is left to an unverified shell around this crate.

pub mod clock;
pub mod decode;
pub mod dispatch;
pub mod encode;
pub mod events;
pub mod inject;
pub mod laws;
pub mod session;
