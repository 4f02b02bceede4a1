//! Core logic of a command-line desktop-wallpaper manager.
//!
//! The desktop shell stores one wallpaper path per monitor and a single
//! global display mode; this crate holds everything about that interaction
//! that can be stated and proved: the display-mode code table, the
//! wide-character transcoding used at the service boundary, the assembly of
//! the monitor directory from raw service replies, monitor selection, the
//! two-phase set operation with its partial-failure outcome, and the
//! connection's teardown discipline. The calls into the shell service
//! itself are left to the surrounding binary.

pub mod accessor;
pub mod connection;
pub mod decimal;
pub mod error;
pub mod model;
pub mod monitor;
pub mod position;
pub mod wide;
