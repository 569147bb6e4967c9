//! Who gets which command.

use crate::command::WindowCommand;
use vstd::prelude::*;

verus! {

/// What is to be done with a command.
#[derive(Debug)]
pub enum ServeAction {
    /// Nothing.
    Nothing,
    /// Start the terminal application.
    StartTerminal,
    /// Hand the command on to the terminal application.
    Forward(WindowCommand),
}

/// Serves the commands of the client.
#[derive(Clone, Copy, Debug, PartialEq, Eq, Structural)]
pub struct WindowManager {
    /// Whether commands are still served.
    pub keep_running: bool,
    /// Whether the terminal application has been started.
    pub terminal_started: bool,
}

impl WindowManager {
    /// The manager after a read from the pipe of commands.
    pub open spec fn after(self, received: Result<WindowCommand, ()>) -> Self {
        match received {
            Ok(WindowCommand::Init()) => WindowManager { terminal_started: true, ..self },
            Ok(WindowCommand::Shutdown()) => WindowManager { keep_running: false, ..self },
            _ => self,
        }
    }

    /// What is to be done after a read from the pipe of commands.
    pub open spec fn action(self, received: Result<WindowCommand, ()>) -> ServeAction {
        match received {
            Ok(WindowCommand::Init()) => if self.terminal_started {
                ServeAction::Nothing
            } else {
                ServeAction::StartTerminal
            },
            Ok(WindowCommand::Shutdown()) => ServeAction::Nothing,
            Ok(command) => ServeAction::Forward(command),
            Err(()) => ServeAction::Nothing,
        }
    }

    /// The manager after one read after the other, until it stops.
    pub open spec fn after_all(self, received: Seq<Result<WindowCommand, ()>>) -> Self
        decreases received.len(),
    {
        if self.keep_running && received.len() > 0 {
            self.after(received[0]).after_all(received.drop_first())
        } else {
            self
        }
    }

    /// What is done after one read after the other, until the manager stops.
    pub open spec fn actions(self, received: Seq<Result<WindowCommand, ()>>) -> Seq<ServeAction>
        decreases received.len(),
    {
        if self.keep_running && received.len() > 0 {
            seq![self.action(received[0])] + self.after(received[0]).actions(received.drop_first())
        } else {
            Seq::empty()
        }
    }

    /// A manager that serves, without a terminal application.
    pub fn new() -> (manager: Self)
        ensures
            manager == (WindowManager { keep_running: true, terminal_started: false }),
    {
        WindowManager { keep_running: true, terminal_started: false }
    }

    /// Ends the service. There is nothing to put away.
    pub fn cleanup(&mut self)
        ensures
            *final(self) == *old(self),
    {
    }

    /// Notes that the terminal application is wanted. Says whether to start it, which is so the
    /// first time only.
    pub fn init(&mut self) -> (start: bool)
        ensures
            start == !old(self).terminal_started,
            *final(self) == (WindowManager { terminal_started: true, ..*old(self) }),
    {
        let start = !self.terminal_started;
        self.terminal_started = true;
        start
    }

    /// One round of the service: what a read from the pipe of commands gave, and what to do.
    pub fn serve(&mut self, received: Result<WindowCommand, ()>) -> (action: ServeAction)
        ensures
            *final(self) == old(self).after(received),
            action == old(self).action(received),
    {
        match received {
            Ok(command) => match command {
                WindowCommand::Init() => {
                    if self.init() {
                        ServeAction::StartTerminal
                    } else {
                        ServeAction::Nothing
                    }
                },
                WindowCommand::Shutdown() => {
                    self.keep_running = false;
                    ServeAction::Nothing
                },
                _ => ServeAction::Forward(command),
            },
            Err(()) => ServeAction::Nothing,
        }
    }
}

} // verus!
