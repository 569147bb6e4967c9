//! What the mathematical counterparts keep of the values.

use crate::app::App;
use crate::screen::Screen;
use crate::state::AppState;
use vstd::prelude::*;

verus! {

/// The counterpart of a state has every field of it: each line in its place with its text and its
/// style, and each number as it is.
pub proof fn a_state_is_seen_as_it_is(state: AppState)
    ensures
        state@.input == state.input@,
        state@.input_mode == state.input_mode,
        state@.character_index == state.character_index,
        state@.messages.len() == state.messages@.len(),
        forall|i: int|
            0 <= i < state.messages@.len() ==> #[trigger] state@.messages[i] == (
                state.messages@[i].0@,
                state.messages@[i].1,
            ),
        state@.chat_messages.len() == state.chat_messages@.len(),
        forall|i: int|
            0 <= i < state.chat_messages@.len() ==> #[trigger] state@.chat_messages[i]
                == state.chat_messages@[i]@,
        state@.chatid == state.chatid@,
        state@.vertical_position_chat == state.vertical_position_chat,
        state@.vertical_position_commands == state.vertical_position_commands,
        state@.scrollstate_chat.content_length == state.scrollstate_chat.content_length,
        state@.scrollstate_chat.position == state.scrollstate_chat.position,
        state@.scrollstate_commands.content_length == state.scrollstate_commands.content_length,
        state@.scrollstate_commands.position == state.scrollstate_commands.position,
{
}

/// The counterpart of an application has its state, and whether it goes on.
pub proof fn an_application_is_seen_as_it_is(app: App)
    ensures
        app@.state == app.state@,
        app@.should_run == app.should_run,
{
}

/// What goes out is seen as it is: nothing, the end, or a line with its text.
pub proof fn what_goes_out_is_seen_as_it_is(line: String)
    ensures
        crate::app::outgoing(None) is None,
        crate::app::outgoing(Some(None)) == Some(None::<Seq<char>>),
        crate::app::outgoing(Some(Some(line))) == Some(Some(line@)),
{
}

/// The counterpart of a screen has every field of it.
pub proof fn a_screen_is_seen_as_it_is(screen: Screen)
    ensures
        screen@.areas == screen.areas,
        screen@.help.len() == screen.help@.len(),
        forall|i: int|
            0 <= i < screen.help@.len() ==> #[trigger] screen@.help[i] == (
                screen.help@[i].text@,
                screen.help@[i].bold,
            ),
        screen@.help_blinks == screen.help_blinks,
        screen@.input == screen.input@,
        screen@.input_title == screen.input_title@,
        screen@.input_highlighted == screen.input_highlighted,
        screen@.cursor is Some <==> screen.cursor is Some,
        screen.cursor matches Some(place) ==> screen@.cursor == Some(
            (place.x as int, place.y as int),
        ),
        screen@.title == screen.title@,
        screen@.lines.len() == screen.lines@.len(),
        forall|i: int|
            0 <= i < screen.lines@.len() ==> #[trigger] screen@.lines[i] == (
                screen.lines@[i].0@,
                screen.lines@[i].1,
            ),
        screen@.scroll == screen.scroll,
        screen@.scrollbar.content_length == screen.scrollbar.content_length,
        screen@.scrollbar.position == screen.scrollbar.position,
        screen@.scrollbar_area == screen.scrollbar_area,
        screen@.scrollbar_begin == screen.scrollbar_begin,
        screen@.scrollbar_end == screen.scrollbar_end,
{
}

} // verus!
