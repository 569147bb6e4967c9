//! What the terminal shows, and how each operation changes it.

use vstd::prelude::*;

verus! {

/// How a line of the command view is written.
#[derive(Clone, Copy, Debug, PartialEq, Eq, Structural)]
pub enum TextStyle {
    Italic,
    Bold,
    Normal,
}

/// Whether keys are commands or text.
#[derive(Clone, Copy, Debug, PartialEq, Eq, Structural)]
pub enum InputMode {
    Normal,
    Editing,
}

/// What a scrollbar shows: the length of the content and the place in it.
#[derive(Clone, Copy, Debug, PartialEq, Eq, Structural)]
pub struct ScrollState {
    pub content_length: usize,
    pub position: usize,
}

/// The mathematical counterpart of [`ScrollState`].
pub struct ScrollView {
    pub content_length: nat,
    pub position: nat,
}

impl View for ScrollState {
    type V = ScrollView;

    open spec fn view(&self) -> ScrollView {
        ScrollView { content_length: self.content_length as nat, position: self.position as nat }
    }
}

impl ScrollState {
    /// A scrollbar at the top of no content.
    pub fn new() -> (scroll: Self)
        ensures
            scroll@ == (ScrollView { content_length: 0, position: 0 }),
    {
        ScrollState { content_length: 0, position: 0 }
    }

    /// The same scrollbar at another place.
    pub fn position(self, position: usize) -> (scroll: Self)
        ensures
            scroll@ == (ScrollView { position: position as nat, ..self@ }),
    {
        ScrollState { position, ..self }
    }

    /// The same scrollbar over content of another length.
    pub fn content_length(self, content_length: usize) -> (scroll: Self)
        ensures
            scroll@ == (ScrollView { content_length: content_length as nat, ..self@ }),
    {
        ScrollState { content_length, ..self }
    }
}

/// Everything that the terminal shows.
#[derive(Debug)]
pub struct AppState {
    /// The line being written.
    pub input: String,
    pub input_mode: InputMode,
    /// The cursor: how many characters of `input` stand before it.
    pub character_index: usize,
    /// The lines of the command view.
    pub messages: Vec<(String, TextStyle)>,
    /// The lines of the chat; while there are any, the chat is shown.
    pub chat_messages: Vec<String>,
    /// Whom the chat is with.
    pub chatid: String,
    pub vertical_position_chat: usize,
    pub vertical_position_commands: usize,
    pub scrollstate_chat: ScrollState,
    pub scrollstate_commands: ScrollState,
}

/// The mathematical counterpart of [`AppState`].
pub struct AppStateView {
    pub input: Seq<char>,
    pub input_mode: InputMode,
    pub character_index: nat,
    pub messages: Seq<(Seq<char>, TextStyle)>,
    pub chat_messages: Seq<Seq<char>>,
    pub chatid: Seq<char>,
    pub vertical_position_chat: nat,
    pub vertical_position_commands: nat,
    pub scrollstate_chat: ScrollView,
    pub scrollstate_commands: ScrollView,
}

/// The lines of the command view, as text.
pub open spec fn styled_lines(lines: Seq<(String, TextStyle)>) -> Seq<(Seq<char>, TextStyle)> {
    lines.map_values(|line: (String, TextStyle)| (line.0@, line.1))
}

/// The lines of the chat, as text.
pub open spec fn plain_lines(lines: Seq<String>) -> Seq<Seq<char>> {
    lines.map_values(|line: String| line@)
}

impl View for AppState {
    type V = AppStateView;

    open spec fn view(&self) -> AppStateView {
        AppStateView {
            input: self.input@,
            input_mode: self.input_mode,
            character_index: self.character_index as nat,
            messages: styled_lines(self.messages@),
            chat_messages: plain_lines(self.chat_messages@),
            chatid: self.chatid@,
            vertical_position_chat: self.vertical_position_chat as nat,
            vertical_position_commands: self.vertical_position_commands as nat,
            scrollstate_chat: self.scrollstate_chat@,
            scrollstate_commands: self.scrollstate_commands@,
        }
    }
}

/// One step down; the last position that a `usize` holds stays.
pub open spec fn one_down(position: nat) -> nat {
    if position < usize::MAX {
        position + 1
    } else {
        position
    }
}

/// One step up; the top stays.
pub open spec fn one_up(position: nat) -> nat {
    if position > 0 {
        (position - 1) as nat
    } else {
        0
    }
}

impl AppStateView {
    /// The state of a terminal on which nothing has happened.
    pub open spec fn initial() -> Self {
        AppStateView {
            input: Seq::empty(),
            input_mode: InputMode::Normal,
            character_index: 0,
            messages: Seq::empty(),
            chat_messages: Seq::empty(),
            chatid: "Nobody"@,
            vertical_position_chat: 0,
            vertical_position_commands: 0,
            scrollstate_chat: ScrollView { content_length: 0, position: 0 },
            scrollstate_commands: ScrollView { content_length: 0, position: 0 },
        }
    }

    /// The cursor stands in the text or at its end.
    pub open spec fn well_formed(self) -> bool {
        self.character_index <= self.input.len()
    }

    /// The cursor one character to the left, and not behind `len`.
    pub open spec fn cursor_left(self, len: nat) -> Self {
        AppStateView {
            character_index: crate::text::at_most(one_up(self.character_index), len),
            ..self
        }
    }

    /// The cursor one character to the right, and not behind `len`.
    pub open spec fn cursor_right(self, len: nat) -> Self {
        AppStateView {
            character_index: crate::text::at_most(one_down(self.character_index), len),
            ..self
        }
    }

    /// `new_char` written at the cursor, which then stands behind it. A cursor behind the end of
    /// the text writes at the end, and comes to stand at most one behind the byte position that
    /// it wrote to.
    pub open spec fn with_char(self, new_char: char) -> Self {
        let place = crate::text::at_most(self.character_index, self.input.len());
        let limit = crate::text::byte_offset(self.input, self.character_index);
        AppStateView {
            input: self.input.insert(place as int, new_char),
            character_index: crate::text::at_most(self.character_index, limit) + 1,
            ..self
        }
    }

    /// The character before the cursor taken out; nothing happens at the start of the text. A
    /// cursor behind the end of the text takes out nothing, and comes to stand at most at the
    /// number of bytes of the text.
    pub open spec fn without_char(self) -> Self {
        if self.character_index == 0 {
            self
        } else {
            let n = self.input.len();
            let before = crate::text::at_most((self.character_index - 1) as nat, n);
            let after = crate::text::at_most(self.character_index, n);
            AppStateView {
                input: self.input.take(before as int) + self.input.skip(after as int),
                character_index: crate::text::at_most(
                    (self.character_index - 1) as nat,
                    crate::text::byte_count(self.input),
                ),
                ..self
            }
        }
    }

    /// The line handed in: no text, the cursor at its start, and keys are commands again.
    pub open spec fn submitted(self) -> Self {
        AppStateView {
            input: Seq::empty(),
            character_index: 0,
            input_mode: InputMode::Normal,
            ..self
        }
    }

    /// Keys mean `input_mode` from now on.
    pub open spec fn in_mode(self, input_mode: InputMode) -> Self {
        AppStateView { input_mode, ..self }
    }

    /// The view that is shown scrolled to where `step` leads: the chat while it has lines, else
    /// the commands. The scrollbar of the commands is set by the place in the chat.
    pub open spec fn scrolled(self, step: spec_fn(nat) -> nat) -> Self {
        if self.chat_messages.len() > 0 {
            let position = step(self.vertical_position_chat);
            AppStateView {
                vertical_position_chat: position,
                scrollstate_chat: ScrollView { position, ..self.scrollstate_chat },
                ..self
            }
        } else {
            AppStateView {
                vertical_position_commands: step(self.vertical_position_commands),
                scrollstate_commands: ScrollView {
                    position: self.vertical_position_chat,
                    ..self.scrollstate_commands
                },
                ..self
            }
        }
    }

    /// The view that is shown one line further down.
    pub open spec fn scrolled_down(self) -> Self {
        self.scrolled(|position: nat| one_down(position))
    }

    /// The view that is shown one line further up.
    pub open spec fn scrolled_up(self) -> Self {
        self.scrolled(|position: nat| one_up(position))
    }

    /// One more line in the command view.
    pub open spec fn with_message(self, message: Seq<char>, style: TextStyle) -> Self {
        AppStateView {
            messages: self.messages.push((message, style)),
            scrollstate_commands: ScrollView {
                content_length: self.messages.len() + 1,
                ..self.scrollstate_commands
            },
            ..self
        }
    }

    /// One more line in the chat, which is with `chatid` from now on.
    pub open spec fn with_chat_message(self, chatid: Seq<char>, message: Seq<char>) -> Self {
        AppStateView {
            chatid,
            chat_messages: self.chat_messages.push(message),
            scrollstate_chat: ScrollView {
                content_length: self.chat_messages.len() + 1,
                ..self.scrollstate_chat
            },
            ..self
        }
    }

    /// `message` behind the last line of the command view, which is in `style` from now on; the
    /// first line where there is none.
    pub open spec fn with_last_message(self, message: Seq<char>, style: TextStyle) -> Self {
        if self.messages.len() > 0 {
            let last = self.messages.last();
            AppStateView {
                messages: self.messages.drop_last().push((last.0 + message, style)),
                ..self
            }
        } else {
            AppStateView { messages: seq![(message, style)], ..self }
        }
    }

    /// The chat without lines.
    pub open spec fn without_chat(self) -> Self {
        AppStateView { chat_messages: Seq::empty(), ..self }
    }
}

/// A copy of the lines of the command view.
pub(crate) fn copy_styled_lines(lines: &Vec<(String, TextStyle)>) -> (copy: Vec<(String, TextStyle)>)
    ensures
        styled_lines(copy@) == styled_lines(lines@),
{
    let mut copy: Vec<(String, TextStyle)> = Vec::new();
    for i in 0..lines.len()
        invariant
            copy@.len() == i,
            forall|j: int| 0 <= j < i ==> #[trigger] copy@[j] == lines@[j],
    {
        copy.push((lines[i].0.clone(), lines[i].1));
    }
    proof {
        assert(copy@ == lines@);
    }
    copy
}

/// A copy of the lines of the chat.
fn copy_plain_lines(lines: &Vec<String>) -> (copy: Vec<String>)
    ensures
        plain_lines(copy@) == plain_lines(lines@),
{
    let mut copy: Vec<String> = Vec::new();
    for i in 0..lines.len()
        invariant
            copy@.len() == i,
            forall|j: int| 0 <= j < i ==> #[trigger] copy@[j] == lines@[j],
    {
        copy.push(lines[i].clone());
    }
    proof {
        assert(copy@ == lines@);
    }
    copy
}

impl Clone for AppState {
    fn clone(&self) -> (copy: Self)
        ensures
            copy@ == self@,
    {
        AppState {
            input: self.input.clone(),
            input_mode: self.input_mode,
            character_index: self.character_index,
            messages: copy_styled_lines(&self.messages),
            chat_messages: copy_plain_lines(&self.chat_messages),
            chatid: self.chatid.clone(),
            vertical_position_chat: self.vertical_position_chat,
            vertical_position_commands: self.vertical_position_commands,
            scrollstate_chat: self.scrollstate_chat,
            scrollstate_commands: self.scrollstate_commands,
        }
    }
}

} // verus!
