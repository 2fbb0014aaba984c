//! Verified core of a small LED controller.
//!
//! The device has a plain LED that a button toggles, an RGB LED whose
//! colour is set from a web page, and one in-memory state for each that
//! every part of the program reads. Hardware, network and locks belong to
//! the program around this library; what the program decides is here, with
//! contracts that Verus checks.
//!
//! - [`level`]: the two output levels, reason codes, and the rule by which
//!   a code changes the level.
//! - [`signal`]: the one-slot hand-off from the interrupt to the control
//!   loop.
//! - [`control`]: the control loop as a state machine.
//! - [`color`]: colours and their hexadecimal notation.
//! - [`app_state`]: the shared state of both LEDs and how it is written.
//! - [`request`]: the form that asks for a colour.
//! - [`markup`]: the status page.
//! - [`web`]: what the HTTP handlers decide and answer.

pub mod app_state;
pub mod color;
pub mod control;
pub mod level;
pub mod markup;
pub mod request;
pub mod signal;
pub mod web;
