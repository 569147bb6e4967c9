//! What the screen shows of a state, and where.

use crate::layout::Area;
use crate::screen::Areas;
use crate::state::AppStateView;
use crate::state::TextStyle;
use vstd::prelude::*;

verus! {

/// The input box shows the line being written, all of it, whichever view is shown; it and the
/// help line say which mode it is.
pub proof fn the_line_is_on_the_screen(state: AppStateView, areas: Areas)
    ensures
        ({
            let screen = state.screen(areas);
            &&& screen.input == state.input
            &&& screen.input_title == "Input"@
            &&& screen.input_highlighted <==> state.input_mode is Editing
            &&& screen.help_blinks <==> state.input_mode is Normal
            &&& screen.areas == areas
        }),
{
}

/// With a chat the screen shows its lines, all of them in their order and in plain style, says
/// whom it is with, and is scrolled as the chat is.
pub proof fn the_chat_is_on_the_screen(state: AppStateView, areas: Areas)
    requires
        state.chat_messages.len() > 0,
    ensures
        ({
            let screen = state.screen(areas);
            &&& screen.lines.len() == state.chat_messages.len()
            &&& forall|i: int|
                0 <= i < state.chat_messages.len() ==> #[trigger] screen.lines[i] == (
                    state.chat_messages[i],
                    TextStyle::Normal,
                )
            &&& screen.title == "Chat with "@ + state.chatid
            &&& screen.scroll == state.vertical_position_chat
            &&& screen.scrollbar == state.scrollstate_chat
        }),
{
}

/// Without a chat the screen shows the lines of the command view, all of them in their order and
/// each in its style, and is scrolled as they are.
pub proof fn the_commands_are_on_the_screen(state: AppStateView, areas: Areas)
    requires
        state.chat_messages.len() == 0,
    ensures
        ({
            let screen = state.screen(areas);
            &&& screen.lines == state.messages
            &&& screen.title == "Commands"@
            &&& screen.scroll == state.vertical_position_commands
            &&& screen.scrollbar == state.scrollstate_commands
        }),
{
}

/// While a line is written the cursor is shown in the input box, one line below its upper border,
/// and as many columns behind its left border as there are characters before the cursor, counted
/// as a `u16` counts. In normal mode no cursor is shown.
pub proof fn the_cursor_is_on_the_screen(state: AppStateView, areas: Areas)
    ensures
        ({
            let screen = state.screen(areas);
            let column = state.character_index % 0x1_0000;
            &&& state.input_mode is Normal ==> screen.cursor is None
            &&& state.input_mode is Editing ==> screen.cursor == Some(
                (areas.input.x + column + 1, areas.input.y + 1),
            )
        }),
{
}

/// The cursor on the screen goes one column on with each character that it passes, and stays in
/// its line.
pub proof fn the_cursor_moves_on_the_screen(
    state: AppStateView,
    next: AppStateView,
    areas: Areas,
)
    requires
        state.input_mode is Editing,
        next.input_mode is Editing,
        next.character_index == state.character_index + 1,
        next.character_index < 0x1_0000,
    ensures
        state.screen(areas).cursor matches Some(place) && next.screen(areas).cursor == Some(
            (place.0 + 1, place.1),
        ),
{
}

/// The help line tells the keys of the mode, with the keys in bold.
pub proof fn the_help_line_tells_the_keys(state: AppStateView, areas: Areas)
    ensures
        ({
            let help = state.screen(areas).help;
            &&& help.len() == 5
            &&& forall|i: int| 0 <= i < 5 ==> (#[trigger] help[i].1 <==> i % 2 == 1)
            &&& help[0].0 == "Press "@
            &&& state.input_mode is Normal ==> {
                &&& help[1].0 == "q"@
                &&& help[2].0 == " to exit, "@
                &&& state.chat_messages.len() > 0 ==> help[3].0 == "e"@
                &&& state.chat_messages.len() == 0 ==> help[3].0 == "Space"@
                &&& help[4].0 == " to write"@
            }
            &&& state.input_mode is Editing ==> {
                &&& help[1].0 == "Esc"@
                &&& help[2].0 == " to stop editing, "@
                &&& help[3].0 == "Enter"@
                &&& help[4].0 == " to submit the message"@
            }
        }),
{
}

/// The scrollbar has arrows at its ends, and stands within the borders above and below the lines
/// shown; where there is no room between these, it has no place.
pub proof fn the_scrollbar_stands_within_the_borders(state: AppStateView, areas: Areas)
    ensures
        ({
            let screen = state.screen(areas);
            let bar = screen.scrollbar_area;
            &&& screen.scrollbar_begin == '\u{2191}'
            &&& screen.scrollbar_end == '\u{2193}'
            &&& areas.body.height < 2 ==> bar == (Area { x: 0, y: 0, width: 0, height: 0 })
            &&& areas.body.height >= 2 ==> {
                &&& bar.x == areas.body.x
                &&& bar.width == areas.body.width
                &&& bar.height + 2 == areas.body.height
                &&& areas.body.y < u16::MAX ==> bar.y == areas.body.y + 1
                &&& areas.body.y == u16::MAX ==> bar.y == u16::MAX
            }
        }),
{
}

/// A screen can be drawn unless a number on it is beyond a `u16`: the lines of the view that are
/// scrolled away, or, while a line is written, a coordinate of the cursor.
pub proof fn a_screen_of_small_numbers_can_be_drawn(state: AppStateView, areas: Areas)
    ensures
        state.can_be_drawn(areas) <==> {
            &&& state.chat_messages.len() > 0 ==> state.vertical_position_chat <= 0xffff
            &&& state.chat_messages.len() == 0 ==> state.vertical_position_commands <= 0xffff
            &&& state.input_mode is Editing ==> areas.input.x + state.character_index % 0x1_0000
                < 0xffff && areas.input.y < 0xffff
        },
{
}

/// A drawing shows the state: the line being written, whichever view is shown, and where in it the
/// cursor stands; with a chat its lines and whom it is with, else the lines of the command view;
/// and how far that view is scrolled.
pub proof fn a_drawing_shows_the_state(state: AppStateView, frame: Area)
    ensures
        state.drawing(frame) matches Some(screen) ==> {
            let column = state.character_index % 0x1_0000;
            let input_area = screen.areas.input;
            &&& screen.input == state.input
            &&& screen.input_title == "Input"@
            &&& screen.input_highlighted <==> state.input_mode is Editing
            &&& screen.help_blinks <==> state.input_mode is Normal
            &&& state.input_mode is Normal ==> screen.cursor is None
            &&& state.input_mode is Editing ==> screen.cursor == Some(
                (input_area.x + column + 1, input_area.y + 1),
            )
            &&& state.chat_messages.len() > 0 ==> {
                &&& screen.lines.len() == state.chat_messages.len()
                &&& forall|i: int|
                    0 <= i < state.chat_messages.len() ==> #[trigger] screen.lines[i] == (
                        state.chat_messages[i],
                        TextStyle::Normal,
                    )
                &&& screen.title == "Chat with "@ + state.chatid
                &&& screen.scroll == state.vertical_position_chat
                &&& screen.scrollbar == state.scrollstate_chat
            }
            &&& state.chat_messages.len() == 0 ==> {
                &&& screen.lines == state.messages
                &&& screen.title == "Commands"@
                &&& screen.scroll == state.vertical_position_commands
                &&& screen.scrollbar == state.scrollstate_commands
            }
        },
{
}

/// A drawing is the screen with its parts placed in the frame, on every terminal where its
/// numbers are within a `u16`, and on no other.
pub proof fn a_drawing_is_the_screen_in_the_frame(state: AppStateView, frame: Area)
    ensures
        ({
            let areas = crate::screen::arrangement(frame, state.chat_messages.len() > 0);
            &&& state.drawing(frame) is Some <==> state.can_be_drawn(areas)
            &&& state.drawing(frame) is Some ==> state.drawing(frame) == Some(state.screen(areas))
        }),
{
}

/// Where the parts stand on any terminal, with as many lines as the frame has, or as a `u16`
/// counts. The view that is shown has the first line, and all beyond the fourth; the help line
/// has one, as soon as there are two; the input has what is left, and three at the most.
/// With a chat the view stands above the help line, and the input below it; without, the help
/// line above the input, and the view below it. All are as wide as the frame.
pub proof fn the_parts_share_the_frame(frame: Area, chat: bool)
    ensures
        ({
            let areas = crate::screen::arrangement(frame, chat);
            let lines = if frame.y + frame.height <= u16::MAX {
                frame.height as int
            } else {
                u16::MAX - frame.y
            };
            &&& lines == 0 ==> areas.body.height == 0
            &&& 1 <= lines <= 5 ==> areas.body.height == 1
            &&& lines > 5 ==> areas.body.height == lines - 4
            &&& lines < 2 ==> areas.help.height == 0
            &&& lines >= 2 ==> areas.help.height == 1
            &&& areas.help.height + areas.input.height + areas.body.height == lines
            &&& chat ==> {
                &&& areas.body.y == frame.y
                &&& areas.help.y == frame.y + areas.body.height
                &&& areas.input.y == areas.help.y + areas.help.height
            }
            &&& !chat ==> {
                &&& areas.help.y == frame.y
                &&& areas.input.y == frame.y + areas.help.height
                &&& areas.body.y == areas.input.y + areas.input.height
            }
            &&& areas.help.x == frame.x && areas.help.width == frame.width
            &&& areas.input.x == frame.x && areas.input.width == frame.width
            &&& areas.body.x == frame.x && areas.body.width == frame.width
        }),
{
}

} // verus!
