//! Core of a dictation assistant: a session controller that guarantees at
//! most one live capture session, a recognition producer that emits transcript
//! fragments with cooperative cancellation, a translation gateway that maps a
//! credential and an upstream response to a result or a classified error, and
//! a speech-output gateway that resolves voice settings and interprets the
//! voice engine's outcome.

use vstd::prelude::*;

pub mod producer;
pub mod session;
pub mod speech;
pub mod text;
pub mod translate;

verus! {

/// Builds the greeting shown when the presentation layer pings the backend.
pub fn greet(name: &str) -> (r: String)
    ensures
        r@ == "Hello, "@ + name@ + "! You've been greeted from Rust!"@,
{
    String::from_str("Hello, ").concat(name).concat("! You've been greeted from Rust!")
}

} // verus!
