//! Decision logic of a tray utility that keeps the mouse cursor usable on
//! rotated (portrait) monitors: when the cursor enters a rotated display the
//! system is switched to a software-drawn cursor, and back to the hardware
//! cursor on an unrotated one.
//!
//! Everything that touches the operating system or the GUI toolkit lives in
//! the application around this crate; the functions here take the plain
//! values those calls produce and decide what happens next.

pub mod wide;
pub mod display;
pub mod inspector;
pub mod window;
pub mod commands;
pub mod shell;
