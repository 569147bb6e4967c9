//! The terminal front end of a chat client, as plain state and plain decisions.
//!
//! * [`command`]: the commands that the client sends to its terminal.
//! * [`state`]: what the terminal shows, and how each operation changes it.
//! * [`app`]: the terminal application: keys and commands in, text to send out.
//! * [`layout`] and [`screen`]: where the parts of the screen go, and what stands in them.
//! * [`manager`] and [`pipe`]: who gets which command, and the pipe that carries it.
//! * [`chat`] and [`text`]: the line made of a chat message, and byte positions in text.
//! * [`laws`]: what holds across these operations.

pub mod app;
pub mod chat;
pub mod command;
pub mod laws;
pub mod layout;
pub mod manager;
pub mod pipe;
pub mod screen;
pub mod state;
pub mod text;
