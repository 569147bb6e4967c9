//! The terminal application: keys and commands in, text to send out.

use crate::command::WindowCommand;
use crate::state::AppState;
use crate::state::AppStateView;
use crate::state::InputMode;
use crate::state::ScrollState;
use crate::state::TextStyle;
use crate::text::byte_length;
use vstd::prelude::*;
use vstd::string::*;

verus! {

/// A key, as far as the application tells keys apart.
#[derive(Clone, Copy, Debug, PartialEq, Eq, Structural)]
pub enum Key {
    Char(char),
    Enter,
    Backspace,
    Left,
    Right,
    Up,
    Down,
    Esc,
    Other,
}

/// What the terminal reports.
#[derive(Clone, Copy, Debug, PartialEq, Eq, Structural)]
pub enum TerminalEvent {
    /// A key that went down (`pressed`), is held, or was let go.
    Key { code: Key, pressed: bool },
    /// Anything but a key.
    Other,
}

/// What a wait for the next command ended with.
#[derive(Debug)]
pub enum PipeEvent {
    Command(WindowCommand),
    /// No command can come any more.
    Closed,
    /// No command came in time.
    TimedOut,
}

/// What is to be done after a [`TerminalEvent`].
#[derive(Debug)]
pub struct KeyStep {
    /// What goes out to the client: nothing, a line of text, or `None` for the end.
    pub send: Option<Option<String>>,
    /// Whether to wait for another event.
    pub keep_running: bool,
}

/// What is to be done after a [`PipeEvent`].
#[derive(Debug)]
pub struct PipeStep {
    /// Whether to report that no command can come any more.
    pub report_error: bool,
    /// What to draw from now on.
    pub publish: AppState,
    /// Whether to wait for another command.
    pub keep_running: bool,
}

/// The application.
#[derive(Debug)]
pub struct App {
    pub state: AppState,
    pub should_run: bool,
}

/// The mathematical counterpart of [`App`].
pub struct AppView {
    pub state: AppStateView,
    pub should_run: bool,
}

impl View for App {
    type V = AppView;

    open spec fn view(&self) -> AppView {
        AppView { state: self.state@, should_run: self.should_run }
    }
}

/// What goes out to the client, as text.
pub open spec fn outgoing(send: Option<Option<String>>) -> Option<Option<Seq<char>>> {
    match send {
        None => None,
        Some(None) => Some(None),
        Some(Some(line)) => Some(Some(line@)),
    }
}

impl AppView {
    /// The same application in another state.
    pub open spec fn with_state(self, state: AppStateView) -> Self {
        AppView { state, ..self }
    }

    /// The application after a key in normal mode. Whether the key went down or up is the same.
    pub open spec fn after_command_key(self, code: Key) -> Self {
        match code {
            Key::Char(' ') => self.with_state(self.state.in_mode(InputMode::Editing)),
            Key::Char('q') => AppView { should_run: false, ..self },
            Key::Up => self.with_state(self.state.scrolled_up()),
            Key::Down => self.with_state(self.state.scrolled_down()),
            _ => self,
        }
    }

    /// The application after a key that went down in editing mode.
    pub open spec fn after_editing_key(self, code: Key) -> Self {
        let len = self.state.input.len();
        self.with_state(
            match code {
                Key::Enter => self.state.submitted(),
                Key::Char(to_insert) => self.state.with_char(to_insert),
                Key::Backspace => self.state.without_char(),
                Key::Left => self.state.cursor_left(len),
                Key::Right => self.state.cursor_right(len),
                Key::Up => self.state.scrolled_up(),
                Key::Down => self.state.scrolled_down(),
                Key::Esc => self.state.in_mode(InputMode::Normal),
                Key::Other => self.state,
            },
        )
    }

    /// The application after an event of the terminal.
    pub open spec fn after_event(self, event: TerminalEvent) -> Self {
        match (event, self.state.input_mode) {
            (TerminalEvent::Key { code, .. }, InputMode::Normal) => self.after_command_key(code),
            (TerminalEvent::Key { code, pressed: true }, InputMode::Editing) =>
                self.after_editing_key(code),
            _ => self,
        }
    }

    /// What an event of the terminal sends out: the end for `q` in normal mode, the line for
    /// Enter in editing mode.
    pub open spec fn sends(self, event: TerminalEvent) -> Option<Option<Seq<char>>> {
        match (event, self.state.input_mode) {
            (TerminalEvent::Key { code: Key::Char('q'), .. }, InputMode::Normal) => Some(None),
            (TerminalEvent::Key { code: Key::Enter, pressed: true }, InputMode::Editing) => Some(
                Some(self.state.input),
            ),
            _ => None,
        }
    }

    /// The application after a command.
    pub open spec fn after_command(self, command: WindowCommand) -> Self {
        self.with_state(
            match command {
                WindowCommand::Print(cmd) => self.state.with_last_message(
                    cmd.message@,
                    TextStyle::Normal,
                ),
                WindowCommand::Println(cmd) => self.state.with_message(
                    cmd.message@,
                    TextStyle::Normal,
                ),
                WindowCommand::ChatClosed(cmd) => self.state.with_message(
                    cmd.message@,
                    TextStyle::Bold,
                ).without_chat(),
                WindowCommand::PrintChat(cmd) => self.state.with_chat_message(
                    cmd.chatid@,
                    cmd.message@,
                ),
                _ => self.state,
            },
        )
    }

    /// The application after a wait for the next command.
    pub open spec fn after_pipe(self, event: PipeEvent) -> Self {
        match event {
            PipeEvent::Command(command) => self.after_command(command),
            _ => self,
        }
    }
}

impl App {
    /// An application on which nothing has happened.
    pub fn new() -> (app: Self)
        ensures
            app@ == (AppView { state: AppStateView::initial(), should_run: true }),
            app@.state.well_formed(),
    {
        let app = App {
            state: AppState {
                input: String::new(),
                input_mode: InputMode::Normal,
                character_index: 0,
                messages: Vec::new(),
                chat_messages: Vec::new(),
                chatid: "Nobody".to_string(),
                vertical_position_chat: 0,
                vertical_position_commands: 0,
                scrollstate_chat: ScrollState::new(),
                scrollstate_commands: ScrollState::new(),
            },
            should_run: true,
        };
        proof {
            assert(app@.state.messages == Seq::<(Seq<char>, TextStyle)>::empty());
            assert(app@.state.chat_messages == Seq::<Seq<char>>::empty());
        }
        app
    }

    /// Takes the lines out of the chat.
    pub fn clear_chat(&mut self)
        ensures
            final(self)@ == old(self)@.with_state(old(self)@.state.without_chat()),
    {
        self.state.chat_messages.clear();
        proof {
            assert(self@.state.chat_messages == Seq::<Seq<char>>::empty());
        }
    }

    /// A cursor position no further than `len`.
    pub fn clamp_cursor(&self, new_cursor_pos: usize, len: usize) -> (position: usize)
        ensures
            position == crate::text::at_most(new_cursor_pos as nat, len as nat),
    {
        if new_cursor_pos < len {
            new_cursor_pos
        } else {
            len
        }
    }

    /// Moves the cursor one character to the left, and not behind `len`.
    pub fn move_cursor_left(&mut self, len: usize)
        ensures
            final(self)@ == old(self)@.with_state(old(self)@.state.cursor_left(len as nat)),
    {
        let cursor_moved_left: usize = self.state.character_index.saturating_sub(1);
        self.state.character_index = self.clamp_cursor(cursor_moved_left, len);
    }

    /// Moves the cursor one character to the right, and not behind `len`.
    pub fn move_cursor_right(&mut self, len: usize)
        ensures
            final(self)@ == old(self)@.with_state(old(self)@.state.cursor_right(len as nat)),
    {
        let cursor_moved_right: usize = self.state.character_index.saturating_add(1);
        self.state.character_index = self.clamp_cursor(cursor_moved_right, len);
    }

    /// The byte position of the cursor in the text.
    pub fn byte_index(&self) -> (position: usize)
        ensures
            position == crate::text::byte_offset(
                self@.state.input,
                self@.state.character_index,
            ),
    {
        crate::text::byte_index(self.state.input.as_str(), self.state.character_index)
    }

    /// Writes a character at the cursor.
    pub fn enter_char(&mut self, new_char: char)
        ensures
            final(self)@ == old(self)@.with_state(old(self)@.state.with_char(new_char)),
    {
        let ghost text = self@.state.input;
        let ghost cursor = self@.state.character_index;
        let ghost place = crate::text::at_most(cursor, text.len());
        let index = self.byte_index();
        proof {
            crate::text::lemma_byte_offset_bounds(text, cursor);
            assert(crate::text::byte_offset(text, place) == index);
        }
        self.state.input.insert(index, new_char);
        let grown = byte_length(self.state.input.as_str());
        proof {
            crate::text::lemma_byte_count_insert(text, place, new_char);
            assert(index < grown);
        }
        self.move_cursor_right(index + 1);
    }

    /// Takes out the character before the cursor.
    pub fn delete_char(&mut self)
        ensures
            final(self)@ == old(self)@.with_state(old(self)@.state.without_char()),
    {
        let current_index = self.state.character_index;
        if current_index != 0 {
            let ghost text = self@.state.input;
            let count = self.state.input.as_str().unicode_len();
            let len = byte_length(self.state.input.as_str());
            let before = self.clamp_cursor(current_index - 1, count);
            let after = self.clamp_cursor(current_index, count);
            let mut kept = self.state.input.as_str().substring_char(0, before).to_string();
            kept.append(self.state.input.as_str().substring_char(after, count));
            proof {
                assert(text.subrange(0, before as int) == text.take(before as int));
                assert(text.subrange(after as int, count as int) == text.skip(after as int));
            }
            self.state.input = kept;
            self.move_cursor_left(len);
        }
    }

    /// Puts the cursor at the start of the text.
    pub fn reset_cursor(&mut self)
        ensures
            final(self)@ == old(self)@.with_state(
                (AppStateView { character_index: 0, ..old(self)@.state }),
            ),
    {
        self.state.character_index = 0;
    }

    /// Hands in the line: takes it out of the state, for the client.
    pub fn submit_message(&mut self) -> (line: String)
        ensures
            line@ == old(self)@.state.input,
            final(self)@ == old(self)@.with_state(old(self)@.state.submitted()),
    {
        let line = self.state.input.clone();
        self.state.input = String::new();
        self.reset_cursor();
        self.set_input_mode(InputMode::Normal);
        line
    }

    /// Whether keys are commands or text.
    pub fn get_input_mode(&self) -> (input_mode: InputMode)
        ensures
            input_mode == self@.state.input_mode,
    {
        self.state.input_mode
    }

    /// A copy of everything that the terminal shows.
    pub fn get_state(&self) -> (state: AppState)
        ensures
            state@ == self@.state,
    {
        self.state.clone()
    }

    /// Sets whether keys are commands or text.
    pub fn set_input_mode(&mut self, input_mode: InputMode)
        ensures
            final(self)@ == old(self)@.with_state(old(self)@.state.in_mode(input_mode)),
    {
        self.state.input_mode = input_mode;
    }

    /// Whether the application goes on.
    pub fn should_run(&self) -> (running: bool)
        ensures
            running == self@.should_run,
    {
        self.should_run
    }

    /// Ends the application.
    pub fn set_terminate(&mut self)
        ensures
            final(self)@ == (AppView { should_run: false, ..old(self)@ }),
    {
        self.should_run = false;
    }

    /// The cursor.
    pub fn get_character_index(&self) -> (index: usize)
        ensures
            index == self@.state.character_index,
    {
        self.state.character_index
    }

    /// The line being written.
    pub fn get_input(&self) -> (input: String)
        ensures
            input@ == self@.state.input,
    {
        self.state.input.clone()
    }

    /// The length of the line being written, in characters.
    pub fn get_input_len(&self) -> (count: usize)
        ensures
            count == self@.state.input.len(),
    {
        self.state.input.as_str().unicode_len()
    }

    /// Scrolls the view that is shown one line down.
    pub fn move_vertical_scroll_down(&mut self)
        ensures
            final(self)@ == old(self)@.with_state(old(self)@.state.scrolled_down()),
    {
        if self.state.chat_messages.len() > 0 {
            self.state.vertical_position_chat = self.state.vertical_position_chat.saturating_add(1);
            self.state.scrollstate_chat = self.state.scrollstate_chat.position(
                self.state.vertical_position_chat,
            );
        } else {
            self.state.vertical_position_commands =
            self.state.vertical_position_commands.saturating_add(1);
            self.state.scrollstate_commands = self.state.scrollstate_commands.position(
                self.state.vertical_position_chat,
            );
        }
    }

    /// Scrolls the view that is shown one line up.
    pub fn move_vertical_scroll_up(&mut self)
        ensures
            final(self)@ == old(self)@.with_state(old(self)@.state.scrolled_up()),
    {
        if self.state.chat_messages.len() > 0 {
            self.state.vertical_position_chat = self.state.vertical_position_chat.saturating_sub(1);
            self.state.scrollstate_chat = self.state.scrollstate_chat.position(
                self.state.vertical_position_chat,
            );
        } else {
            self.state.vertical_position_commands =
            self.state.vertical_position_commands.saturating_sub(1);
            self.state.scrollstate_commands = self.state.scrollstate_commands.position(
                self.state.vertical_position_chat,
            );
        }
    }

    /// Adds a line to the command view.
    pub fn write_new_message(&mut self, message: String, style: TextStyle)
        ensures
            final(self)@ == old(self)@.with_state(
                old(self)@.state.with_message(message@, style),
            ),
    {
        self.state.messages.push((message, style));
        self.state.scrollstate_commands = self.state.scrollstate_commands.content_length(
            self.state.messages.len(),
        );
        proof {
            assert(self@.state.messages == old(self)@.state.messages.push((message@, style)));
        }
    }

    /// Adds a line to the chat, which is with `chatid` from now on.
    pub fn write_chat_new_message(&mut self, chatid: String, message: String)
        ensures
            final(self)@ == old(self)@.with_state(
                old(self)@.state.with_chat_message(chatid@, message@),
            ),
    {
        self.state.chatid = chatid;
        self.state.chat_messages.push(message);
        self.state.scrollstate_chat = self.state.scrollstate_chat.content_length(
            self.state.chat_messages.len(),
        );
        proof {
            assert(self@.state.chat_messages == old(self)@.state.chat_messages.push(message@));
        }
    }

    /// Adds to the last line of the command view, in whichever window that is.
    pub fn set_last_message(&mut self, _window: usize, message: String, style: TextStyle)
        ensures
            final(self)@ == old(self)@.with_state(
                old(self)@.state.with_last_message(message@, style),
            ),
    {
        match self.state.messages.pop() {
            Some(last) => {
                let mut text = last.0;
                text.append(message.as_str());
                self.state.messages.push((text, style));
            },
            None => {
                self.state.messages.push((message, style));
            },
        }
        proof {
            assert(self@.state.messages == old(self)@.state.with_last_message(
                message@,
                style,
            ).messages);
        }
    }

    /// Carries out a command.
    pub fn run_command(&mut self, command: WindowCommand)
        ensures
            final(self)@ == old(self)@.after_command(command),
    {
        match command {
            WindowCommand::Print(cmd) => {
                self.set_last_message(cmd.window, cmd.message, TextStyle::Normal);
            },
            WindowCommand::Println(cmd) => {
                self.write_new_message(cmd.message, TextStyle::Normal);
            },
            WindowCommand::ChatClosed(cmd) => {
                self.write_new_message(cmd.message, TextStyle::Bold);
                self.clear_chat();
            },
            WindowCommand::PrintChat(cmd) => {
                self.write_chat_new_message(cmd.chatid, cmd.message);
            },
            _ => {},
        }
    }

    /// One round of the loop that waits for commands.
    pub fn run_pipe(&mut self, event: PipeEvent) -> (step: PipeStep)
        ensures
            final(self)@ == old(self)@.after_pipe(event),
            step.report_error <==> event is Closed,
            step.publish@ == final(self)@.state,
            step.keep_running == final(self)@.should_run,
    {
        let mut report_error = false;
        match event {
            PipeEvent::Command(command) => {
                self.run_command(command);
            },
            PipeEvent::Closed => {
                report_error = true;
            },
            PipeEvent::TimedOut => {},
        }
        PipeStep { report_error, publish: self.get_state(), keep_running: self.should_run() }
    }

    /// One round of the loop that waits for keys.
    pub fn run_event(&mut self, event: TerminalEvent) -> (step: KeyStep)
        ensures
            final(self)@ == old(self)@.after_event(event),
            outgoing(step.send) == old(self)@.sends(event),
            step.keep_running == final(self)@.should_run,
    {
        let mut send: Option<Option<String>> = None;
        if let TerminalEvent::Key { code, pressed } = event {
            match self.get_input_mode() {
                InputMode::Normal => match code {
                    Key::Char(' ') => {
                        self.set_input_mode(InputMode::Editing);
                    },
                    Key::Char('q') => {
                        self.set_terminate();
                        send = Some(None);
                    },
                    Key::Up => {
                        self.move_vertical_scroll_up();
                    },
                    Key::Down => {
                        self.move_vertical_scroll_down();
                    },
                    _ => {},
                },
                InputMode::Editing => {
                    if pressed {
                        let len = self.get_input_len();
                        match code {
                            Key::Enter => {
                                let line = self.submit_message();
                                send = Some(Some(line));
                            },
                            Key::Char(to_insert) => {
                                self.enter_char(to_insert);
                            },
                            Key::Backspace => {
                                self.delete_char();
                            },
                            Key::Left => {
                                self.move_cursor_left(len);
                            },
                            Key::Up => {
                                self.move_vertical_scroll_up();
                            },
                            Key::Down => {
                                self.move_vertical_scroll_down();
                            },
                            Key::Right => {
                                self.move_cursor_right(len);
                            },
                            Key::Esc => {
                                self.set_input_mode(InputMode::Normal);
                            },
                            Key::Other => {},
                        }
                    }
                },
            }
        }
        KeyStep { send, keep_running: self.should_run() }
    }
}

} // verus!
