//! A terminal emulator for an editor plugin, with machine-checked contracts.
//!
//! The bytes that a program writes to its terminal go through the
//! [`interpreter`], a state machine that turns them into [`action`]s. The
//! [`screen`] applies the actions to its grid of [`cell`]s, its history
//! ([`scrollback`]), its cursor and its [`modes`], and records the rows that
//! changed ([`damage`]). The [`render`] adapter turns the rows that need
//! drawing into runs of like cells, coloured by the [`palette`] where nothing
//! else is said. The [`input`] mapper turns keys, pasted
//! text and mouse events into the bytes that the program expects. The
//! [`terminal`] ties these together and queues [`events`] for the host; the
//! [`session`] keeps what is decided about the child process; the [`drawer`]
//! is the panel that owns both, and the [`plugin`] is what the host loads.
//!
//! What each part does is stated over mathematical values: [`model`] says
//! what every action makes of a screen, and [`laws`] holds what follows for
//! every screen and every sequence of bytes. Reading and writing the
//! pseudo-terminal, threads and drawing on a window are left to the caller.

pub mod action;
pub mod base64;
pub mod cell;
pub mod damage;
pub mod drawer;
pub mod events;
pub mod grid;
pub mod input;
pub mod interpreter;
pub mod laws;
pub mod model;
pub mod modes;
pub mod palette;
pub mod plugin;
pub mod render;
pub mod screen;
pub mod scrollback;
pub mod selection;
pub mod sequence;
pub mod session;
pub mod sgr;
pub mod terminal;
pub mod text;

pub use crate::drawer::TerminalDrawer;
pub use crate::plugin::{TerminalEditorWrapper, TerminalPlugin};
pub use crate::terminal::Terminal;
