//! What stands on the screen.

use crate::app::App;
use crate::layout::inner_area;
use crate::layout::split_vertical;
use crate::layout::Area;
use crate::layout::Row;
use crate::layout::Stack;
use crate::state::AppState;
use crate::state::AppStateView;
use crate::state::InputMode;
use crate::state::ScrollState;
use crate::state::ScrollView;
use crate::state::TextStyle;
use vstd::prelude::*;
use vstd::string::*;

verus! {

/// A piece of the help line.
#[derive(Debug)]
pub struct Label {
    pub text: String,
    pub bold: bool,
}

/// A place on the screen.
#[derive(Clone, Copy, Debug, PartialEq, Eq, Structural)]
pub struct Place {
    pub x: u16,
    pub y: u16,
}

/// The three parts of the screen.
#[derive(Clone, Copy, Debug, PartialEq, Eq, Structural)]
pub struct Areas {
    pub help: Area,
    pub input: Area,
    /// The lines of the chat, or of the command view.
    pub body: Area,
}

/// Everything on the screen, and where.
#[derive(Debug)]
pub struct Screen {
    pub areas: Areas,
    pub help: Vec<Label>,
    pub help_blinks: bool,
    pub input: String,
    pub input_title: String,
    pub input_highlighted: bool,
    /// Where the cursor is shown; nowhere in normal mode.
    pub cursor: Option<Place>,
    pub title: String,
    pub lines: Vec<(String, TextStyle)>,
    /// How many lines are scrolled out of sight at the top.
    pub scroll: u16,
    pub scrollbar: ScrollState,
    pub scrollbar_area: Area,
    pub scrollbar_begin: char,
    pub scrollbar_end: char,
}

/// The mathematical counterpart of [`Screen`].
pub struct ScreenView {
    pub areas: Areas,
    pub help: Seq<(Seq<char>, bool)>,
    pub help_blinks: bool,
    pub input: Seq<char>,
    pub input_title: Seq<char>,
    pub input_highlighted: bool,
    pub cursor: Option<(int, int)>,
    pub title: Seq<char>,
    pub lines: Seq<(Seq<char>, TextStyle)>,
    pub scroll: nat,
    pub scrollbar: ScrollView,
    pub scrollbar_area: Area,
    pub scrollbar_begin: char,
    pub scrollbar_end: char,
}

/// The pieces of the help line, as text.
pub open spec fn label_texts(labels: Seq<Label>) -> Seq<(Seq<char>, bool)> {
    labels.map_values(|label: Label| (label.text@, label.bold))
}

impl View for Screen {
    type V = ScreenView;

    open spec fn view(&self) -> ScreenView {
        ScreenView {
            areas: self.areas,
            help: label_texts(self.help@),
            help_blinks: self.help_blinks,
            input: self.input@,
            input_title: self.input_title@,
            input_highlighted: self.input_highlighted,
            cursor: match self.cursor {
                Some(place) => Some((place.x as int, place.y as int)),
                None => None,
            },
            title: self.title@,
            lines: crate::state::styled_lines(self.lines@),
            scroll: self.scroll as nat,
            scrollbar: self.scrollbar@,
            scrollbar_area: self.scrollbar_area,
            scrollbar_begin: self.scrollbar_begin,
            scrollbar_end: self.scrollbar_end,
        }
    }
}

impl AppStateView {
    /// The chat is shown, and not the command view.
    pub open spec fn shows_chat(self) -> bool {
        self.chat_messages.len() > 0
    }

    /// How far the view that is shown is scrolled.
    pub open spec fn shown_position(self) -> nat {
        if self.shows_chat() {
            self.vertical_position_chat
        } else {
            self.vertical_position_commands
        }
    }

    /// The lines of the view that is shown.
    pub open spec fn shown_lines(self) -> Seq<(Seq<char>, TextStyle)> {
        if self.shows_chat() {
            self.chat_messages.map_values(|line: Seq<char>| (line, TextStyle::Normal))
        } else {
            self.messages
        }
    }

    /// The help line.
    pub open spec fn help_line(self) -> Seq<(Seq<char>, bool)> {
        match self.input_mode {
            InputMode::Normal => seq![
                ("Press "@, false),
                ("q"@, true),
                (" to exit, "@, false),
                (if self.shows_chat() { "e"@ } else { "Space"@ }, true),
                (" to write"@, false),
            ],
            InputMode::Editing => seq![
                ("Press "@, false),
                ("Esc"@, true),
                (" to stop editing, "@, false),
                ("Enter"@, true),
                (" to submit the message"@, false),
            ],
        }
    }

    /// The place of the cursor, one column and one line into the frame of the input area. The
    /// column counts characters as a `u16` does.
    pub open spec fn cursor_place(self, input: Area) -> (int, int) {
        (input.x + self.character_index % 0x1_0000 + 1, input.y + 1)
    }

    /// The numbers of the screen are such as a terminal has: the lines scrolled out of sight,
    /// and the place of the cursor where it is shown.
    pub open spec fn can_be_drawn(self, areas: Areas) -> bool {
        &&& self.shown_position() <= u16::MAX
        &&& self.input_mode is Editing ==> {
            &&& self.cursor_place(areas.input).0 <= u16::MAX
            &&& self.cursor_place(areas.input).1 <= u16::MAX
        }
    }

    /// The screen.
    pub open spec fn screen(self, areas: Areas) -> ScreenView {
        ScreenView {
            areas,
            help: self.help_line(),
            help_blinks: self.input_mode is Normal,
            input: self.input,
            input_title: "Input"@,
            input_highlighted: self.input_mode is Editing,
            cursor: if self.input_mode is Editing {
                Some(self.cursor_place(areas.input))
            } else {
                None
            },
            title: if self.shows_chat() {
                "Chat with "@ + self.chatid
            } else {
                "Commands"@
            },
            lines: self.shown_lines(),
            scroll: self.shown_position(),
            scrollbar: if self.shows_chat() {
                self.scrollstate_chat
            } else {
                self.scrollstate_commands
            },
            scrollbar_area: crate::layout::inner(areas.body, 0, 1),
            scrollbar_begin: '\u{2191}',
            scrollbar_end: '\u{2193}',
        }
    }
}

/// The rows of the screen. With a chat: its lines, the help line, the input. Else: the help line,
/// the input, the command view.
pub open spec fn screen_rows(chat: bool) -> Stack<Row> {
    if chat {
        Stack { top: Row::Min(1), middle: Row::Length(1), bottom: Row::Length(3) }
    } else {
        Stack { top: Row::Length(1), middle: Row::Length(3), bottom: Row::Min(1) }
    }
}

/// The three parts of a screen with this frame.
pub open spec fn arrangement(frame: Area, chat: bool) -> Areas {
    let rows = crate::layout::rows_of(frame, screen_rows(chat));
    if chat {
        Areas { body: rows.top, help: rows.middle, input: rows.bottom }
    } else {
        Areas { help: rows.top, input: rows.middle, body: rows.bottom }
    }
}

impl AppStateView {
    /// The screen on a terminal with this frame, or nothing where it cannot be drawn there.
    pub open spec fn drawing(self, frame: Area) -> Option<ScreenView> {
        let areas = arrangement(frame, self.shows_chat());
        if self.can_be_drawn(areas) {
            Some(self.screen(areas))
        } else {
            None
        }
    }
}

/// A piece of the help line.
fn label(text: &str, bold: bool) -> (piece: Label)
    ensures
        piece.text@ == text@,
        piece.bold == bold,
{
    Label { text: text.to_string(), bold }
}

/// The help line.
fn help_line(input_mode: InputMode, chat: bool) -> (help: Vec<Label>)
    ensures
        forall|state: AppStateView|
            state.input_mode == input_mode && state.shows_chat() == chat ==> label_texts(help@)
                == #[trigger] state.help_line(),
{
    let mut help: Vec<Label> = Vec::new();
    help.push(label("Press ", false));
    match input_mode {
        InputMode::Normal => {
            help.push(label("q", true));
            help.push(label(" to exit, ", false));
            help.push(label(if chat { "e" } else { "Space" }, true));
            help.push(label(" to write", false));
        },
        InputMode::Editing => {
            help.push(label("Esc", true));
            help.push(label(" to stop editing, ", false));
            help.push(label("Enter", true));
            help.push(label(" to submit the message", false));
        },
    }
    proof {
        assert forall|state: AppStateView|
            state.input_mode == input_mode && state.shows_chat() == chat implies label_texts(help@)
            == #[trigger] state.help_line() by {
            assert(label_texts(help@) =~= state.help_line());
        }
    }
    help
}

/// The lines of the chat, in the style that they are shown in.
fn chat_lines(chat_messages: &Vec<String>) -> (lines: Vec<(String, TextStyle)>)
    ensures
        crate::state::styled_lines(lines@) == crate::state::plain_lines(
            chat_messages@,
        ).map_values(|line: Seq<char>| (line, TextStyle::Normal)),
{
    let mut lines: Vec<(String, TextStyle)> = Vec::new();
    for i in 0..chat_messages.len()
        invariant
            lines@.len() == i,
            forall|j: int|
                0 <= j < i ==> #[trigger] lines@[j] == (chat_messages@[j], TextStyle::Normal),
    {
        lines.push((chat_messages[i].clone(), TextStyle::Normal));
    }
    proof {
        assert(crate::state::styled_lines(lines@) =~= crate::state::plain_lines(
            chat_messages@,
        ).map_values(|line: Seq<char>| (line, TextStyle::Normal)));
    }
    lines
}

/// The three parts of a screen with this frame.
pub fn arrange(frame: Area, chat: bool) -> (areas: Areas)
    ensures
        areas == arrangement(frame, chat),
{
    if chat {
        let rows = split_vertical(
            frame,
            Stack { top: Row::Min(1), middle: Row::Length(1), bottom: Row::Length(3) },
        );
        Areas { body: rows.top, help: rows.middle, input: rows.bottom }
    } else {
        let rows = split_vertical(
            frame,
            Stack { top: Row::Length(1), middle: Row::Length(3), bottom: Row::Min(1) },
        );
        Areas { help: rows.top, input: rows.middle, body: rows.bottom }
    }
}

/// Whether the screen can be drawn.
pub fn can_draw(state: &AppState, areas: &Areas) -> (drawable: bool)
    ensures
        drawable == state@.can_be_drawn(*areas),
{
    let position = if state.chat_messages.len() > 0 {
        state.vertical_position_chat
    } else {
        state.vertical_position_commands
    };
    let column = areas.input.x as u64 + (state.character_index % 0x1_0000) as u64 + 1;
    position <= 0xffff && match state.input_mode {
        InputMode::Normal => true,
        InputMode::Editing => column <= 0xffff && areas.input.y < 0xffff,
    }
}

/// The screen, with its parts in `areas`.
pub fn compose(state: &AppState, areas: Areas) -> (screen: Screen)
    requires
        state@.can_be_drawn(areas),
    ensures
        screen@ == state@.screen(areas),
{
    let chat = state.chat_messages.len() > 0;
    let editing = match state.input_mode {
        InputMode::Normal => false,
        InputMode::Editing => true,
    };
    let cursor = if editing {
        let column = (state.character_index % 0x1_0000) as u16;
        Some(Place { x: areas.input.x + column + 1, y: areas.input.y + 1 })
    } else {
        None
    };
    let help = help_line(state.input_mode, chat);
    let scrollbar_area = inner_area(areas.body, 0, 1);
    let input = state.input.clone();
    let input_title = "Input".to_string();
    proof {
        assert(label_texts(help@) == state@.help_line());
    }
    if chat {
        let mut title = "Chat with ".to_string();
        title.append(state.chatid.as_str());
        Screen {
            areas,
            help,
            help_blinks: !editing,
            input,
            input_title,
            input_highlighted: editing,
            cursor,
            title,
            lines: chat_lines(&state.chat_messages),
            scroll: state.vertical_position_chat as u16,
            scrollbar: state.scrollstate_chat,
            scrollbar_area,
            scrollbar_begin: '\u{2191}',
            scrollbar_end: '\u{2193}',
        }
    } else {
        Screen {
            areas,
            help,
            help_blinks: !editing,
            input,
            input_title,
            input_highlighted: editing,
            cursor,
            title: "Commands".to_string(),
            lines: crate::state::copy_styled_lines(&state.messages),
            scroll: state.vertical_position_commands as u16,
            scrollbar: state.scrollstate_commands,
            scrollbar_area,
            scrollbar_begin: '\u{2191}',
            scrollbar_end: '\u{2193}',
        }
    }
}

impl App {
    /// The screen for a state, on a terminal with this frame. The view has to be scrolled no
    /// further, and the cursor to stand no further away, than a terminal reaches; [`can_draw`]
    /// tells.
    pub fn draw(frame: Area, state: &AppState) -> (screen: Screen)
        requires
            state@.can_be_drawn(arrangement(frame, state@.shows_chat())),
        ensures
            screen@ == state@.screen(arrangement(frame, state@.shows_chat())),
            Some(screen@) == state@.drawing(frame),
    {
        compose(state, arrange(frame, state.chat_messages.len() > 0))
    }
}

} // verus!
