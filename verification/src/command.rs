//! The commands that the client sends to its terminal.

use vstd::prelude::*;

verus! {

/// Text for the command view.
#[derive(Clone, Debug)]
pub struct PrintCommand {
    pub window: usize,
    pub message: String,
}

/// The chat has ended; `message` says so.
#[derive(Clone, Debug)]
pub struct ChatClosedCommand {
    pub message: String,
}

/// One line of the chat with `chatid`.
#[derive(Clone, Debug)]
pub struct PrintChatCommand {
    pub chatid: String,
    pub message: String,
}

/// A request for a line of input.
#[derive(Clone, Debug)]
pub struct ReadCommand {
    pub window: usize,
    pub prompt: String,
    pub upper_prompt: String,
    pub timeout: i32,
}

/// A request for a window of its own.
#[derive(Clone, Debug)]
pub struct NewWindowCommand {
    pub win_number: usize,
    pub start_y: i32,
    pub win_height: i32,
    pub win_width: i32,
}

/// What the client can ask of its terminal.
#[derive(Clone, Debug)]
pub enum WindowCommand {
    /// Adds a line to the command view.
    Println(PrintCommand),
    /// Adds to the last line of the command view.
    Print(PrintCommand),
    /// Adds a line to the chat.
    PrintChat(PrintChatCommand),
    /// Asks for input.
    Read(ReadCommand),
    /// Asks for a window.
    New(NewWindowCommand),
    /// Ends the chat.
    ChatClosed(ChatClosedCommand),
    /// Starts the terminal.
    Init(),
    /// Stops serving commands.
    Shutdown(),
}

} // verus!
