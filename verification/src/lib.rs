//! Core logic of a tray-menu driven overlay controller.
//!
//! The library models the tray menu's configuration state (three mutually
//! exclusive option groups and two independent toggles), routes menu-click
//! identifiers to state transitions, check-state commands and outbound
//! configuration events, plans synthetic key presses for page navigation,
//! and keeps the status menu entry's text. The host toolkit, the OS input
//! tap, the window manager and the log sinks are unverified collaborators:
//! a thin shell performs those calls and feeds plain values back in.

pub mod events;
pub mod injector;
pub mod logfmt;
pub mod registry;
pub mod router;
pub mod status;
pub mod text;
pub mod window;

pub use text::str_eq;
