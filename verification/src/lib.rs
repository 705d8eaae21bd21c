//! The front end of a fuzzy file finder, as a verified state machine.
//!
//! The library decides; the program around it acts. Key presses and match
//! snapshots come in as plain values, and what has to happen on the terminal,
//! on the clipboard and towards the filtering engine goes out as plain values
//! that the caller carries out in order.
//!
//! - [`input`] classifies a key press.
//! - [`curses`] queues the primitive drawing commands of a terminal.
//! - [`view`] holds the visible window of matches and the selection.
//! - [`app`] holds the filter string and drives the session.
//! - [`text`] holds what the contracts say of strings and numbers as text.
//! - [`laws`] and [`screen`] state and prove what holds of every session.

pub mod app;
pub mod curses;
pub mod input;
pub mod laws;
pub mod screen;
pub mod text;
pub mod view;

pub use crate::app::{App, AppModel, Event, ExitReason, Request, SessionState, Signal, Step};
pub use crate::curses::{Command, CommandView, Curses};
pub use crate::input::{classify, Action};
pub use crate::view::{MatchSnapshot, View, ViewModel};
