//! What holds across the operations of the terminal.
//!
//! * [`keys`]: what each key does to the line, the views and the client.
//! * [`commands`]: what each command does to the views, and commands one after the other.
//! * [`drawing`]: what the screen shows of a state, and where.
//! * [`service`]: which command goes to whom.
//! * [`words`]: byte positions, fingerprints and the lines of a chat.
//! * [`views`]: what the mathematical counterparts keep of the values.

pub mod commands;
pub mod drawing;
pub mod keys;
pub mod service;
pub mod views;
pub mod words;

use crate::app::AppView;
use crate::app::Key;
use crate::app::PipeEvent;
use crate::app::TerminalEvent;
use crate::command::ChatClosedCommand;
use crate::command::PrintChatCommand;
use crate::command::WindowCommand;
use crate::layout::Area;
use crate::manager::ServeAction;
use crate::manager::WindowManager;
use crate::screen::Areas;
use crate::state::AppStateView;
use crate::state::TextStyle;
use vstd::prelude::*;
use vstd::utf8::*;

verus! {

// ---- The line being written ----

/// A character written in the text, or at its end, stands where the cursor was, and the cursor
/// stands behind it.
pub proof fn char_is_written_at_the_cursor(state: AppStateView, new_char: char)
    requires
        state.well_formed(),
    ensures
        state.with_char(new_char) == (AppStateView {
            input: state.input.insert(state.character_index as int, new_char),
            character_index: state.character_index + 1,
            ..state
        }),
        state.with_char(new_char).well_formed(),
{
    crate::text::lemma_byte_offset_bounds(state.input, state.character_index);
}

/// Backspace takes out the character before the cursor, and the cursor moves to its place.
pub proof fn backspace_takes_the_char_before_the_cursor(state: AppStateView)
    requires
        state.well_formed(),
        state.character_index > 0,
    ensures
        state.without_char() == (AppStateView {
            input: state.input.remove(state.character_index - 1),
            character_index: (state.character_index - 1) as nat,
            ..state
        }),
        state.without_char().well_formed(),
{
    crate::text::lemma_byte_count_at_least(state.input);
    assert(state.without_char().input =~= state.input.remove(state.character_index - 1));
}

/// Backspace undoes a character.
pub proof fn backspace_undoes_a_char(state: AppStateView, new_char: char)
    requires
        state.well_formed(),
    ensures
        state.with_char(new_char).without_char() == state,
{
    char_is_written_at_the_cursor(state, new_char);
    let written = state.with_char(new_char);
    backspace_takes_the_char_before_the_cursor(written);
    assert(written.without_char().input =~= state.input);
}

/// A step to the left and a step to the right end where they began, unless one of them meets an
/// end of the text.
pub proof fn left_and_right_undo_each_other(state: AppStateView)
    requires
        state.well_formed(),
        state.input.len() <= usize::MAX,
    ensures
        state.character_index > 0 ==> state.cursor_left(state.input.len()).cursor_right(
            state.input.len(),
        ) == state,
        state.character_index < state.input.len() ==> state.cursor_right(
            state.input.len(),
        ).cursor_left(state.input.len()) == state,
{
}

/// The application after the keys of `text` went down, one after the other.
pub open spec fn typed(app: AppView, text: Seq<char>) -> AppView
    decreases text.len(),
{
    if text.len() == 0 {
        app
    } else {
        typed(
            app.after_event(TerminalEvent::Key { code: Key::Char(text[0]), pressed: true }),
            text.drop_first(),
        )
    }
}

/// Whatever is typed comes to stand between what was before the cursor and what was behind it,
/// and the cursor behind all of it. Nothing else changes.
pub proof fn typing_writes_the_text(app: AppView, text: Seq<char>)
    requires
        app.state.well_formed(),
        app.state.input_mode is Editing,
    ensures
        typed(app, text) == app.with_state(
            (AppStateView {
                input: app.state.input.take(app.state.character_index as int) + text
                    + app.state.input.skip(app.state.character_index as int),
                character_index: app.state.character_index + text.len(),
                ..app.state
            }),
        ),
    decreases text.len(),
{
    let cursor = app.state.character_index as int;
    let before = app.state.input.take(cursor);
    let behind = app.state.input.skip(cursor);
    if text.len() == 0 {
        assert(before + text + behind =~= app.state.input);
    } else {
        let next = app.after_event(
            TerminalEvent::Key { code: Key::Char(text[0]), pressed: true },
        );
        char_is_written_at_the_cursor(app.state, text[0]);
        typing_writes_the_text(next, text.drop_first());
        assert(next.state.input.take(cursor + 1) + text.drop_first() + next.state.input.skip(
            cursor + 1,
        ) =~= before + text + behind);
    }
}

/// A line is sent as it was typed: on a terminal in normal mode with nothing written, Space, the
/// keys of a text and Enter send this text, and leave the terminal as it was. No key before Enter
/// sends anything.
pub proof fn a_line_is_sent_as_typed(app: AppView, text: Seq<char>, space_down: bool)
    requires
        app.state.input_mode is Normal,
        app.state.input.len() == 0,
        app.state.character_index == 0,
    ensures
        ({
            let space = TerminalEvent::Key { code: Key::Char(' '), pressed: space_down };
            let enter = TerminalEvent::Key { code: Key::Enter, pressed: true };
            let editing = app.after_event(space);
            let written = typed(editing, text);
            &&& app.sends(space) is None
            &&& forall|k: int|
                0 <= k < text.len() ==> typed(editing, #[trigger] text.take(k)).sends(
                    TerminalEvent::Key { code: Key::Char(text[k]), pressed: true },
                ) is None
            &&& written.state.input == text
            &&& written.sends(enter) == Some(Some(text))
            &&& written.after_event(enter) == app
        }),
{
    let space = TerminalEvent::Key { code: Key::Char(' '), pressed: space_down };
    let enter = TerminalEvent::Key { code: Key::Enter, pressed: true };
    let editing = app.after_event(space);
    assert forall|k: int| 0 <= k < text.len() implies typed(editing, #[trigger] text.take(k)).sends(
        TerminalEvent::Key { code: Key::Char(text[k]), pressed: true },
    ) is None by {
        typing_writes_the_text(editing, text.take(k));
    }
    typing_writes_the_text(editing, text);
    let written = typed(editing, text);
    assert(written.state.input =~= text);
    assert(written.after_event(enter).state.input =~= app.state.input);
}

// ---- Keys and commands ----

/// In editing mode a key counts when it goes down, and only then. What is no key never counts.
pub proof fn other_events_change_nothing(app: AppView, code: Key)
    ensures
        app.after_event(TerminalEvent::Other) == app,
        app.sends(TerminalEvent::Other) is None,
        app.state.input_mode is Editing ==> {
            &&& app.after_event(TerminalEvent::Key { code, pressed: false }) == app
            &&& app.sends(TerminalEvent::Key { code, pressed: false }) is None
        },
{
}

/// In normal mode no key changes the line or moves the cursor.
pub proof fn normal_mode_keeps_the_line(app: AppView, event: TerminalEvent)
    requires
        app.state.input_mode is Normal,
    ensures
        app.after_event(event).state.input == app.state.input,
        app.after_event(event).state.character_index == app.state.character_index,
{
}

/// Esc puts a line aside, and Space takes it up again where it was left.
pub proof fn esc_and_space_keep_the_line(app: AppView, space_down: bool)
    requires
        app.state.input_mode is Editing,
    ensures
        ({
            let esc = TerminalEvent::Key { code: Key::Esc, pressed: true };
            let space = TerminalEvent::Key { code: Key::Char(' '), pressed: space_down };
            app.after_event(esc).after_event(space) == app
        }),
{
}

/// Keys leave alone what commands have written: the lines of both views, and whom the chat is
/// with.
pub proof fn keys_keep_the_lines(app: AppView, event: TerminalEvent)
    ensures
        app.after_event(event).state.messages == app.state.messages,
        app.after_event(event).state.chat_messages == app.state.chat_messages,
        app.after_event(event).state.chatid == app.state.chatid,
{
}

/// Commands leave alone what keys have done: the line, the cursor, the mode, how far the views
/// are scrolled, and whether the application goes on.
pub proof fn commands_keep_the_line(app: AppView, event: PipeEvent)
    ensures
        app.after_pipe(event).state.input == app.state.input,
        app.after_pipe(event).state.character_index == app.state.character_index,
        app.after_pipe(event).state.input_mode == app.state.input_mode,
        app.after_pipe(event).state.vertical_position_chat == app.state.vertical_position_chat,
        app.after_pipe(event).state.vertical_position_commands
            == app.state.vertical_position_commands,
        app.after_pipe(event).should_run == app.should_run,
{
}

/// It does not matter which comes first, a key or a command, unless the key scrolls: what it
/// scrolls depends on whether there is a chat.
pub proof fn keys_and_commands_commute(app: AppView, event: TerminalEvent, command: PipeEvent)
    requires
        !(event matches TerminalEvent::Key { code: Key::Up, .. }),
        !(event matches TerminalEvent::Key { code: Key::Down, .. }),
    ensures
        app.after_event(event).after_pipe(command) == app.after_pipe(command).after_event(event),
        app.after_pipe(command).sends(event) == app.sends(event),
{
}

/// The application ends with `q` in normal mode, and with nothing else; the client is told so
/// then, and only then.
pub proof fn only_q_ends_the_application(app: AppView, event: TerminalEvent)
    ensures
        app.after_event(event).should_run <==> app.should_run && app.sends(event) != Some(
            None::<Seq<char>>,
        ),
        app.sends(event) == Some(None::<Seq<char>>) <==> app.state.input_mode is Normal && (
        event matches TerminalEvent::Key { code, .. } && code == Key::Char('q')),
{
}

// ---- The views ----

/// A command keeps the lines of the command view as they are, but that the last one may become
/// longer, and adds one line at the most.
pub proof fn lines_are_kept(app: AppView, event: PipeEvent)
    ensures
        ({
            let before = app.state.messages;
            let after = app.after_pipe(event).state.messages;
            &&& before.len() <= after.len() <= before.len() + 1
            &&& forall|i: int| 0 <= i < before.len() - 1 ==> #[trigger] after[i] == before[i]
            &&& before.len() > 0 ==> before.last().0.is_prefix_of(after[before.len() - 1].0)
        }),
{
}

/// A chat line opens the chat, and the end of a chat closes it: the command view is shown again,
/// and says so in bold on its last line.
pub proof fn chat_opens_and_closes(
    app: AppView,
    chat: PrintChatCommand,
    closed: ChatClosedCommand,
)
    ensures
        app.after_command(WindowCommand::PrintChat(chat)).state.shows_chat(),
        app.after_command(WindowCommand::PrintChat(chat)).state.chat_messages.last()
            == chat.message@,
        app.after_command(WindowCommand::PrintChat(chat)).state.chatid == chat.chatid@,
        !app.after_command(WindowCommand::ChatClosed(closed)).state.shows_chat(),
        app.after_command(WindowCommand::ChatClosed(closed)).state.messages.last() == (
            closed.message@,
            TextStyle::Bold,
        ),
{
}

/// A step down and a step up leave both views where they were, unless there was no further down.
/// Nothing but the scrollbars can be different.
pub proof fn scrolling_up_undoes_scrolling_down(state: AppStateView)
    requires
        state.shown_position() < usize::MAX,
    ensures
        ({
            let there = state.scrolled_down();
            let back = there.scrolled_up();
            &&& there.shown_position() == state.shown_position() + 1
            &&& back == (AppStateView {
                scrollstate_chat: back.scrollstate_chat,
                scrollstate_commands: back.scrollstate_commands,
                ..state
            })
        }),
{
}

// ---- Every state ----

/// What can happen to an application.
pub enum Happening {
    Terminal(TerminalEvent),
    Pipe(PipeEvent),
}

/// The application after one thing.
pub open spec fn after_one(app: AppView, happening: Happening) -> AppView {
    match happening {
        Happening::Terminal(event) => app.after_event(event),
        Happening::Pipe(event) => app.after_pipe(event),
    }
}

/// The application after one thing after the other.
pub open spec fn after_many(app: AppView, happenings: Seq<Happening>) -> AppView
    decreases happenings.len(),
{
    if happenings.len() == 0 {
        app
    } else {
        after_one(after_many(app, happenings.drop_last()), happenings.last())
    }
}

/// The cursor stands in the text or at its end. The scrollbar of the chat stands where the chat
/// is scrolled to, and is as long as the chat that is shown. The scrollbar of the commands is as
/// long as they are; but it does not count a first line that was begun without a line of its own.
pub open spec fn sound(app: AppView) -> bool {
    let state = app.state;
    &&& state.well_formed()
    &&& state.scrollstate_chat.position == state.vertical_position_chat
    &&& state.shows_chat() ==> state.scrollstate_chat.content_length == state.chat_messages.len()
    &&& {
        ||| state.scrollstate_commands.content_length == state.messages.len()
        ||| state.scrollstate_commands.content_length == 0 && state.messages.len() == 1
    }
}

/// Whatever happens to a sound application leaves it sound.
pub proof fn every_step_is_sound(app: AppView, happening: Happening)
    requires
        sound(app),
    ensures
        sound(after_one(app, happening)),
{
    match happening {
        Happening::Terminal(event) => {
            if let TerminalEvent::Key { code: Key::Char(c), .. } = event {
                char_is_written_at_the_cursor(app.state, c);
            }
            if app.state.character_index > 0 {
                backspace_takes_the_char_before_the_cursor(app.state);
            }
        },
        Happening::Pipe(event) => {
            commands_keep_the_line(app, event);
        },
    }
}

/// In whatever way a new application has been used, it is sound.
pub proof fn every_state_is_sound(happenings: Seq<Happening>)
    ensures
        sound(
            after_many(
                AppView { state: AppStateView::initial(), should_run: true },
                happenings,
            ),
        ),
    decreases happenings.len(),
{
    if happenings.len() > 0 {
        every_state_is_sound(happenings.drop_last());
        every_step_is_sound(
            after_many(
                AppView { state: AppStateView::initial(), should_run: true },
                happenings.drop_last(),
            ),
            happenings.last(),
        );
    }
}

/// An application that has ended never goes on.
pub proof fn the_end_is_final(app: AppView, happenings: Seq<Happening>)
    requires
        !app.should_run,
    ensures
        !after_many(app, happenings).should_run,
    decreases happenings.len(),
{
    if happenings.len() > 0 {
        the_end_is_final(app, happenings.drop_last());
    }
}

/// No line of the command view is ever lost: whatever happens, each stays in its place, and what
/// it begins with stays as it is.
pub proof fn no_line_is_lost(app: AppView, happenings: Seq<Happening>)
    ensures
        ({
            let before = app.state.messages;
            let after = after_many(app, happenings).state.messages;
            &&& before.len() <= after.len()
            &&& forall|i: int|
                0 <= i < before.len() ==> before[i].0.is_prefix_of(#[trigger] after[i].0)
        }),
    decreases happenings.len(),
{
    if happenings.len() > 0 {
        let before = app.state.messages;
        let app2 = after_many(app, happenings.drop_last());
        let middle = app2.state.messages;
        let after = after_many(app, happenings).state.messages;
        no_line_is_lost(app, happenings.drop_last());
        match happenings.last() {
            Happening::Terminal(event) => keys_keep_the_lines(app2, event),
            Happening::Pipe(event) => lines_are_kept(app2, event),
        }
        assert forall|i: int| 0 <= i < before.len() implies before[i].0.is_prefix_of(
            #[trigger] after[i].0,
        ) by {
            assert(before[i].0.is_prefix_of(middle[i].0));
            assert(middle[i].0.is_prefix_of(after[i].0));
            assert(before[i].0 =~= after[i].0.subrange(0, before[i].0.len() as int));
        }
    }
}

// ---- The screen ----

/// On a terminal of five lines or more every part of the screen has its place: the help line has
/// one line, the input three, the lines shown all the others.
pub proof fn every_part_has_its_place(frame: Area, chat: bool)
    requires
        frame.height >= 5,
        frame.y + frame.height <= u16::MAX,
    ensures
        ({
            let areas = crate::screen::arrangement(frame, chat);
            &&& areas.help.height == 1
            &&& areas.input.height == 3
            &&& areas.body.height == frame.height - 4
            &&& chat ==> {
                &&& areas.body.y == frame.y
                &&& areas.help.y == frame.y + frame.height - 4
                &&& areas.input.y == frame.y + frame.height - 3
            }
            &&& !chat ==> {
                &&& areas.help.y == frame.y
                &&& areas.input.y == frame.y + 1
                &&& areas.body.y == frame.y + 4
            }
        }),
{
}

/// On a smaller terminal the view that is shown has the first line, the help line the second, and
/// the input all others.
pub proof fn a_small_terminal_shows_the_view_first(frame: Area, chat: bool)
    requires
        1 <= frame.height < 5,
        frame.y + frame.height <= u16::MAX,
    ensures
        ({
            let areas = crate::screen::arrangement(frame, chat);
            &&& areas.body.height == 1
            &&& areas.help.height == (if frame.height == 1 {
                0int
            } else {
                1
            })
            &&& areas.input.height == frame.height - 1 - areas.help.height
        }),
{
}

/// The parts of the screen are as wide as the frame, lie one below the other and fill it, on
/// every terminal.
pub proof fn the_parts_fill_the_frame(frame: Area, chat: bool)
    requires
        frame.y + frame.height <= u16::MAX,
    ensures
        ({
            let areas = crate::screen::arrangement(frame, chat);
            &&& areas.help.height + areas.input.height + areas.body.height == frame.height
            &&& areas.input.y == areas.help.y + areas.help.height
            &&& chat ==> areas.body.y == frame.y && areas.help.y == areas.body.y
                + areas.body.height
            &&& !chat ==> areas.help.y == frame.y && areas.body.y == areas.input.y
                + areas.input.height
            &&& areas.help.x == frame.x && areas.help.width == frame.width
            &&& areas.input.x == frame.x && areas.input.width == frame.width
            &&& areas.body.x == frame.x && areas.body.width == frame.width
        }),
{
}

/// No part of the screen leaves the frame, or the lines that a terminal can count.
pub proof fn no_part_leaves_the_frame(frame: Area, chat: bool)
    ensures
        ({
            let areas = crate::screen::arrangement(frame, chat);
            &&& forall|part: Area| #[trigger]
                is_part(areas, part) ==> {
                    &&& frame.y <= part.y
                    &&& part.y + part.height <= frame.y + frame.height
                    &&& part.y + part.height <= u16::MAX
                }
        }),
{
}

/// `part` is one of the three.
pub open spec fn is_part(areas: Areas, part: Area) -> bool {
    part == areas.help || part == areas.input || part == areas.body
}

/// On a terminal of five lines or more the screen can be drawn wherever the view is scrolled no
/// further than a terminal counts lines, and the cursor, where it is shown, stands no further to
/// the right than it counts columns.
pub proof fn a_large_terminal_can_be_drawn_on(state: AppStateView, frame: Area)
    requires
        frame.height >= 5,
        frame.y + frame.height <= u16::MAX,
    ensures
        state.drawing(frame) is Some <==> {
            &&& state.shown_position() <= u16::MAX
            &&& state.input_mode is Editing ==> frame.x + state.character_index % 0x1_0000 + 1
                <= u16::MAX
        },
{
    every_part_has_its_place(frame, state.shows_chat());
}

/// A view is drawn as far down as it is scrolled, or not at all where that is further than a
/// terminal counts lines.
pub proof fn a_view_is_drawn_where_it_is_scrolled_to(state: AppStateView, frame: Area)
    ensures
        state.shown_position() > u16::MAX ==> state.drawing(frame) is None,
        state.drawing(frame) matches Some(screen) ==> screen.scroll == state.shown_position(),
{
}

/// Two states are the same but for the view that is not shown: its lines, how far it is scrolled,
/// and its scrollbar. Without a chat that is the chat, and whom it was with.
pub open spec fn look_alike(one: AppStateView, other: AppStateView) -> bool {
    &&& one.input == other.input
    &&& one.input_mode == other.input_mode
    &&& one.character_index == other.character_index
    &&& one.chat_messages == other.chat_messages
    &&& one.shows_chat() ==> {
        &&& one.chatid == other.chatid
        &&& one.vertical_position_chat == other.vertical_position_chat
        &&& one.scrollstate_chat == other.scrollstate_chat
    }
    &&& !one.shows_chat() ==> {
        &&& one.messages == other.messages
        &&& one.vertical_position_commands == other.vertical_position_commands
        &&& one.scrollstate_commands == other.scrollstate_commands
    }
}

/// The view that is not shown has no influence on the screen: with the parts in the same places,
/// the screen is the same, or can be drawn as little.
pub proof fn the_hidden_view_is_not_seen(one: AppStateView, other: AppStateView, areas: Areas)
    requires
        look_alike(one, other),
    ensures
        one.can_be_drawn(areas) == other.can_be_drawn(areas),
        one.screen(areas) == other.screen(areas),
{
}

/// The view that is not shown has no influence on a drawing, whatever the frame: states that
/// differ in nothing else are drawn as one and the same screen, or neither is drawn.
pub proof fn states_that_look_alike_are_drawn_alike(
    one: AppStateView,
    other: AppStateView,
    frame: Area,
)
    requires
        look_alike(one, other),
    ensures
        one.drawing(frame) == other.drawing(frame),
{
    the_hidden_view_is_not_seen(
        one,
        other,
        crate::screen::arrangement(frame, one.shows_chat()),
    );
}

// ---- The manager ----

/// A command for the terminal application.
pub open spec fn is_forwarded(received: Result<WindowCommand, ()>) -> bool {
    match received {
        Ok(WindowCommand::Init()) => false,
        Ok(WindowCommand::Shutdown()) => false,
        Ok(_) => true,
        Err(()) => false,
    }
}

/// The order to stop.
pub open spec fn is_shutdown(received: Result<WindowCommand, ()>) -> bool {
    received matches Ok(WindowCommand::Shutdown())
}

/// The order to start the terminal application.
pub open spec fn is_init(received: Result<WindowCommand, ()>) -> bool {
    received matches Ok(WindowCommand::Init())
}

/// As long as nobody orders it to stop, a manager goes on, and deals with each read in turn: a
/// command for the terminal application is handed on as it is; the application is started at the
/// first order to start it, unless it has been before, and at no other; and nothing else is done.
pub proof fn commands_are_served_in_turn(
    manager: WindowManager,
    received: Seq<Result<WindowCommand, ()>>,
)
    requires
        manager.keep_running,
        forall|i: int| 0 <= i < received.len() ==> !is_shutdown(#[trigger] received[i]),
    ensures
        ({
            let actions = manager.actions(received);
            &&& manager.after_all(received).keep_running
            &&& actions.len() == received.len()
            &&& forall|i: int|
                0 <= i < received.len() && is_forwarded(#[trigger] received[i]) ==> actions[i]
                    == ServeAction::Forward(received[i]->Ok_0)
            &&& forall|i: int|
                0 <= i < received.len() && !is_forwarded(#[trigger] received[i]) ==> {
                    ||| actions[i] is Nothing
                    ||| actions[i] is StartTerminal
                }
            &&& forall|i: int|
                0 <= i < received.len() ==> (#[trigger] actions[i] is StartTerminal <==> {
                    &&& is_init(received[i])
                    &&& !manager.terminal_started
                    &&& forall|j: int| 0 <= j < i ==> !is_init(#[trigger] received[j])
                })
        }),
    decreases received.len(),
{
    if received.len() > 0 {
        let rest = received.drop_first();
        let next = manager.after(received[0]);
        assert(!is_shutdown(received[0]));
        assert forall|i: int| 0 <= i < rest.len() implies !is_shutdown(#[trigger] rest[i]) by {
            assert(rest[i] == received[i + 1]);
        }
        commands_are_served_in_turn(next, rest);
        let actions = manager.actions(received);
        let later = next.actions(rest);
        assert(actions[0] == manager.action(received[0]));
        assert forall|i: int| 0 < i < received.len() implies #[trigger] actions[i] == later[i - 1]
            && received[i] == rest[i - 1] by {}
        assert forall|i: int| 0 <= i < received.len() && is_forwarded(#[trigger] received[i]) implies
            actions[i] == ServeAction::Forward(received[i]->Ok_0) by {
            if i > 0 {
                assert(received[i] == rest[i - 1]);
                assert(actions[i] == later[i - 1]);
            }
        }
        assert forall|i: int|
            0 <= i < received.len() && !is_forwarded(#[trigger] received[i]) implies {
            ||| actions[i] is Nothing
            ||| actions[i] is StartTerminal
        } by {
            if i > 0 {
                assert(received[i] == rest[i - 1]);
                assert(actions[i] == later[i - 1]);
            }
        }
        assert forall|i: int| 0 <= i < received.len() implies (#[trigger] actions[i] is StartTerminal
            <==> {
            &&& is_init(received[i])
            &&& !manager.terminal_started
            &&& forall|j: int| 0 <= j < i ==> !is_init(#[trigger] received[j])
        }) by {
            if i > 0 {
                assert(received[i] == rest[i - 1]);
                assert(actions[i] == later[i - 1]);
                if forall|j: int| 0 <= j < i ==> !is_init(#[trigger] received[j]) {
                    assert(!is_init(received[0]));
                    assert forall|j: int| 0 <= j < i - 1 implies !is_init(#[trigger] rest[j]) by {
                        assert(rest[j] == received[j + 1]);
                    }
                }
                if !is_init(received[0]) && (forall|j: int|
                    0 <= j < i - 1 ==> !is_init(#[trigger] rest[j])) {
                    assert forall|j: int| 0 <= j < i implies !is_init(#[trigger] received[j]) by {
                        if j > 0 {
                            assert(received[j] == rest[j - 1]);
                        }
                    }
                }
            }
        }
    }
}

/// A manager that is ordered to stop does, whatever comes behind the order.
pub proof fn shutdown_ends_the_service(
    manager: WindowManager,
    before: Seq<Result<WindowCommand, ()>>,
    order: Result<WindowCommand, ()>,
    behind: Seq<Result<WindowCommand, ()>>,
)
    requires
        is_shutdown(order),
    ensures
        !manager.after_all(before.push(order) + behind).keep_running,
        manager.after_all(before.push(order) + behind) == manager.after_all(before.push(order)),
        manager.actions(before.push(order) + behind) == manager.actions(before.push(order)),
    decreases before.len(),
{
    let all = before.push(order) + behind;
    if manager.keep_running {
        assert(all[0] == before.push(order)[0]);
        if before.len() == 0 {
            assert(all.drop_first() =~= behind);
            assert(manager.after(order).after_all(behind) == manager.after(order));
            assert(before.push(order).drop_first() =~= Seq::empty());
            assert(manager.after(order).after_all(Seq::empty()) == manager.after(order));
            assert(manager.after(order).actions(behind) == Seq::<ServeAction>::empty());
            assert(manager.after(order).actions(Seq::empty()) == Seq::<ServeAction>::empty());
        } else {
            shutdown_ends_the_service(
                manager.after(before[0]),
                before.drop_first(),
                order,
                behind,
            );
            assert(all.drop_first() =~= before.drop_first().push(order) + behind);
            assert(before.push(order).drop_first() =~= before.drop_first().push(order));
        }
    }
}

// ---- Fingerprints ----

/// A fingerprint written in ASCII, as hexadecimal digits are, can always be shortened. What
/// remains of one of more than eight characters are its first four and its last four, with three
/// dots between.
pub proof fn ascii_fingerprints_keep_their_ends(fingerprint: Seq<char>)
    requires
        is_ascii_chars(fingerprint),
    ensures
        crate::chat::can_be_shortened(fingerprint),
        fingerprint.len() > 8 ==> crate::chat::shortened(fingerprint) == fingerprint.take(4)
            + "..."@ + fingerprint.skip(fingerprint.len() - 4),
        fingerprint.len() <= 8 ==> crate::chat::shortened(fingerprint) == fingerprint,
{
    let n = fingerprint.len() as int;
    let bytes = encode_utf8(fingerprint);
    is_ascii_chars_encode_utf8(fingerprint);
    encode_utf8_valid_utf8(fingerprint);
    if n > 8 {
        is_char_boundary_iff_not_is_continuation_byte(bytes, 4);
        is_char_boundary_iff_not_is_continuation_byte(bytes, n - 4);
        let head = fingerprint.take(4);
        let tail = fingerprint.skip(n - 4);
        is_ascii_chars_encode_utf8(head);
        is_ascii_chars_encode_utf8(tail);
        assert(bytes.take(4) =~= encode_utf8(head));
        assert(bytes.skip(n - 4) =~= encode_utf8(tail));
        encode_utf8_decode_utf8(head);
        encode_utf8_decode_utf8(tail);
    }
}

/// A shortened fingerprint begins and ends as the fingerprint does, and takes eleven bytes at the
/// most.
pub proof fn short_fingerprints_are_short(fingerprint: Seq<char>)
    requires
        crate::chat::can_be_shortened(fingerprint),
    ensures
        crate::text::byte_count(crate::chat::shortened(fingerprint)) <= 11,
        crate::text::byte_count(fingerprint) > 8 ==> exists|head: Seq<char>, tail: Seq<char>|
            {
                &&& crate::chat::shortened(fingerprint) == #[trigger] (head + "..."@ + tail)
                &&& head.is_prefix_of(fingerprint)
                &&& tail.is_suffix_of(fingerprint)
                &&& crate::text::byte_count(head) == 4
                &&& crate::text::byte_count(tail) == 4
            },
{
    let bytes = encode_utf8(fingerprint);
    let n = bytes.len() as int;
    encode_utf8_valid_utf8(fingerprint);
    encode_utf8_decode_utf8(fingerprint);
    if n > 8 {
        let head = decode_utf8(bytes.take(4));
        let tail = decode_utf8(bytes.skip(n - 4));
        assert(bytes.take(4) =~= bytes.subrange(0, 4));
        assert(bytes.skip(n - 4) =~= bytes.subrange(n - 4, n));
        valid_utf8_split(bytes, 4);
        valid_utf8_split(bytes, n - 4);
        decode_utf8_split(bytes, 4);
        decode_utf8_split(bytes, n - 4);
        decode_utf8_encode_utf8(bytes.take(4));
        decode_utf8_encode_utf8(bytes.skip(n - 4));
        reveal_strlit("...");
        assert(is_ascii_chars("..."@));
        is_ascii_chars_encode_utf8("..."@);
        crate::text::lemma_encode_concat(head, "..."@);
        crate::text::lemma_encode_concat(head + "..."@, tail);
        assert(head.is_prefix_of(fingerprint));
        assert(tail.is_suffix_of(fingerprint));
        assert(crate::chat::shortened(fingerprint) == head + "..."@ + tail);
    }
}

} // verus!
