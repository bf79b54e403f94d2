//! A record and replay engine for keyboard and pointer events.
//!
//! The library holds the decisions: the event model, the store of captured
//! events, the records and directives that drive a virtual input device, the
//! replay schedule with its timing and its correction of fractional pointer
//! motion, and the session's state machine. Whoever links it opens the device
//! and the physical source, and carries out the commands the library hands back.
#![allow(non_camel_case_types)]

pub mod uinput;
pub mod event;
pub mod replay;
pub mod clock;
pub mod session;
