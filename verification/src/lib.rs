//! Interrupt-driven elapsed-time counter: the timing and state engine behind a
//! one-line clock display with a push-button reset.
//!
//! The crate holds the decisions of the two periodic tasks and the data they
//! share; reading pins, driving the display and masking interrupts are left to
//! the firmware that links it.

pub mod codec;
pub mod debounce;
pub mod line;
pub mod registry;
pub mod slot;
pub mod tasks;
