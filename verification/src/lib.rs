//! Control logic of a terminal session switcher: three screens (create,
//! attach, resurrect), readline-style text fields, confirmation dialogs and
//! the decision which session operation the host is asked to perform.
//!
//! The library is a pure state machine. A key press and a snapshot of the
//! session catalog go in; the next state, a list of actions for the host and
//! a redraw flag come out. Nothing here talks to a terminal or to a host.

pub mod actions;
pub mod catalog;
pub mod chars;
pub mod command;
pub mod dispatch;
pub mod events;
pub mod key;
pub mod laws;
pub mod layout;
pub mod requests;
pub mod screen;
pub mod sessions;
pub mod state;
pub mod text_field;
pub mod validation;
