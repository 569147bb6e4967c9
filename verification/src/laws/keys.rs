//! What each key does: to the line and the cursor, to the views, and to the client.

use crate::app::AppView;
use crate::app::Key;
use crate::app::TerminalEvent;
use crate::state::AppStateView;
use crate::state::InputMode;
use crate::state::ScrollView;
use vstd::prelude::*;

verus! {

// ---- Normal mode, whether a key goes down or up ----

/// Space starts writing: the mode changes, nothing else does, and nothing is sent.
pub proof fn space_starts_writing(app: AppView, pressed: bool)
    requires
        app.state.input_mode is Normal,
    ensures
        ({
            let space = TerminalEvent::Key { code: Key::Char(' '), pressed };
            &&& app.after_event(space) == (AppView {
                state: AppStateView { input_mode: InputMode::Editing, ..app.state },
                ..app
            })
            &&& app.sends(space) is None
        }),
{
}

/// The letter q ends the application and tells the client so; what is shown stays.
pub proof fn q_ends_the_application(app: AppView, pressed: bool)
    requires
        app.state.input_mode is Normal,
    ensures
        ({
            let q = TerminalEvent::Key { code: Key::Char('q'), pressed };
            &&& app.after_event(q) == (AppView { should_run: false, ..app })
            &&& app.sends(q) == Some(None::<Seq<char>>)
        }),
{
}

/// No key but Space, q, Up and Down does anything in normal mode.
pub proof fn other_keys_wait_for_editing(app: AppView, code: Key, pressed: bool)
    requires
        app.state.input_mode is Normal,
        code != Key::Char(' '),
        code != Key::Char('q'),
        code != Key::Up,
        code != Key::Down,
    ensures
        app.after_event(TerminalEvent::Key { code, pressed }) == app,
        app.sends(TerminalEvent::Key { code, pressed }) is None,
{
}

// ---- Scrolling, in both modes ----

/// With a chat, Down scrolls the chat and its scrollbar one line on, and changes nothing else.
pub proof fn down_scrolls_the_chat(app: AppView, pressed: bool)
    requires
        app.state.input_mode is Normal || pressed,
        app.state.chat_messages.len() > 0,
    ensures
        ({
            let down = TerminalEvent::Key { code: Key::Down, pressed };
            let after = app.after_event(down);
            let there = after.state.vertical_position_chat;
            &&& app.state.vertical_position_chat < usize::MAX ==> there
                == app.state.vertical_position_chat + 1
            &&& app.state.vertical_position_chat >= usize::MAX ==> there
                == app.state.vertical_position_chat
            &&& after == (AppView {
                state: AppStateView {
                    vertical_position_chat: there,
                    scrollstate_chat: ScrollView { position: there, ..app.state.scrollstate_chat },
                    ..app.state
                },
                ..app
            })
            &&& app.sends(down) is None
        }),
{
}

/// Without a chat, Down scrolls the command view one line on. Its scrollbar is put where the chat
/// is scrolled to. Nothing else changes.
pub proof fn down_scrolls_the_commands(app: AppView, pressed: bool)
    requires
        app.state.input_mode is Normal || pressed,
        app.state.chat_messages.len() == 0,
    ensures
        ({
            let down = TerminalEvent::Key { code: Key::Down, pressed };
            let after = app.after_event(down);
            let there = after.state.vertical_position_commands;
            &&& app.state.vertical_position_commands < usize::MAX ==> there
                == app.state.vertical_position_commands + 1
            &&& app.state.vertical_position_commands >= usize::MAX ==> there
                == app.state.vertical_position_commands
            &&& after == (AppView {
                state: AppStateView {
                    vertical_position_commands: there,
                    scrollstate_commands: ScrollView {
                        position: app.state.vertical_position_chat,
                        ..app.state.scrollstate_commands
                    },
                    ..app.state
                },
                ..app
            })
            &&& app.sends(down) is None
        }),
{
}

/// With a chat, Up scrolls the chat and its scrollbar one line back, as far as the top, and
/// changes nothing else.
pub proof fn up_scrolls_the_chat(app: AppView, pressed: bool)
    requires
        app.state.input_mode is Normal || pressed,
        app.state.chat_messages.len() > 0,
    ensures
        ({
            let up = TerminalEvent::Key { code: Key::Up, pressed };
            let after = app.after_event(up);
            let there = after.state.vertical_position_chat;
            &&& app.state.vertical_position_chat > 0 ==> there + 1
                == app.state.vertical_position_chat
            &&& app.state.vertical_position_chat == 0 ==> there == 0
            &&& after == (AppView {
                state: AppStateView {
                    vertical_position_chat: there,
                    scrollstate_chat: ScrollView { position: there, ..app.state.scrollstate_chat },
                    ..app.state
                },
                ..app
            })
            &&& app.sends(up) is None
        }),
{
}

/// Without a chat, Up scrolls the command view one line back, as far as the top. Its scrollbar is
/// put where the chat is scrolled to. Nothing else changes.
pub proof fn up_scrolls_the_commands(app: AppView, pressed: bool)
    requires
        app.state.input_mode is Normal || pressed,
        app.state.chat_messages.len() == 0,
    ensures
        ({
            let up = TerminalEvent::Key { code: Key::Up, pressed };
            let after = app.after_event(up);
            let there = after.state.vertical_position_commands;
            &&& app.state.vertical_position_commands > 0 ==> there + 1
                == app.state.vertical_position_commands
            &&& app.state.vertical_position_commands == 0 ==> there == 0
            &&& after == (AppView {
                state: AppStateView {
                    vertical_position_commands: there,
                    scrollstate_commands: ScrollView {
                        position: app.state.vertical_position_chat,
                        ..app.state.scrollstate_commands
                    },
                    ..app.state
                },
                ..app
            })
            &&& app.sends(up) is None
        }),
{
}

/// The view that is shown goes one line down with Down, and one line up with Up or stays at the
/// top: in normal mode and in editing mode, with a chat and without.
pub proof fn up_and_down_scroll_what_is_shown(app: AppView, pressed: bool)
    requires
        app.state.input_mode is Normal || pressed,
    ensures
        ({
            let down = app.after_event(TerminalEvent::Key { code: Key::Down, pressed });
            let up = app.after_event(TerminalEvent::Key { code: Key::Up, pressed });
            &&& app.state.shown_position() < usize::MAX ==> down.state.shown_position()
                == app.state.shown_position() + 1
            &&& app.state.shown_position() > 0 ==> up.state.shown_position()
                == app.state.shown_position() - 1
            &&& app.state.shown_position() == 0 ==> up.state.shown_position() == 0
        }),
{
}

// ---- Editing mode, when a key goes down ----

/// Enter sends the whole line, wherever the cursor stands. The line is empty then, with the
/// cursor at its start, and keys are commands again; nothing else changes.
pub proof fn enter_sends_the_whole_line(app: AppView)
    requires
        app.state.input_mode is Editing,
    ensures
        ({
            let enter = TerminalEvent::Key { code: Key::Enter, pressed: true };
            &&& app.sends(enter) == Some(Some(app.state.input))
            &&& app.after_event(enter) == (AppView {
                state: AppStateView {
                    input: Seq::empty(),
                    character_index: 0,
                    input_mode: InputMode::Normal,
                    ..app.state
                },
                ..app
            })
        }),
{
}

/// A character key puts its character where the cursor stands in the text, whatever the character
/// is, and the cursor behind it. Nothing else changes, and nothing is sent.
pub proof fn a_char_key_writes_at_the_cursor(app: AppView, c: char)
    requires
        app.state.input_mode is Editing,
        app.state.character_index <= app.state.input.len(),
    ensures
        ({
            let key = TerminalEvent::Key { code: Key::Char(c), pressed: true };
            let cursor = app.state.character_index as int;
            &&& app.after_event(key) == (AppView {
                state: AppStateView {
                    input: app.state.input.take(cursor).push(c) + app.state.input.skip(cursor),
                    character_index: app.state.character_index + 1,
                    ..app.state
                },
                ..app
            })
            &&& app.sends(key) is None
        }),
{
    let cursor = app.state.character_index as int;
    crate::laws::char_is_written_at_the_cursor(app.state, c);
    assert(app.state.input.insert(cursor, c) =~= app.state.input.take(cursor).push(c)
        + app.state.input.skip(cursor));
}

/// With a cursor behind the end of the text, a character key writes at the end. The cursor goes
/// one on, but no further than one behind the bytes of the text.
pub proof fn a_char_key_writes_at_the_end(app: AppView, c: char)
    requires
        app.state.input_mode is Editing,
        app.state.character_index > app.state.input.len(),
    ensures
        ({
            let key = TerminalEvent::Key { code: Key::Char(c), pressed: true };
            let bytes = vstd::utf8::encode_utf8(app.state.input).len();
            let after = app.after_event(key);
            &&& after == (AppView {
                state: AppStateView {
                    input: app.state.input.push(c),
                    character_index: after.state.character_index,
                    ..app.state
                },
                ..app
            })
            &&& app.state.character_index <= bytes ==> after.state.character_index
                == app.state.character_index + 1
            &&& app.state.character_index > bytes ==> after.state.character_index == bytes + 1
            &&& app.sends(key) is None
        }),
{
    assert(app.state.input.insert(app.state.input.len() as int, c) =~= app.state.input.push(c));
}

/// Backspace takes out the character before the cursor, also at the end of the text, and the
/// cursor moves to its place. At the start it does nothing. Nothing else changes, and nothing is
/// sent.
pub proof fn backspace_takes_out_a_char(app: AppView)
    requires
        app.state.input_mode is Editing,
        app.state.character_index <= app.state.input.len(),
    ensures
        ({
            let key = TerminalEvent::Key { code: Key::Backspace, pressed: true };
            &&& app.state.character_index > 0 ==> app.after_event(key) == (AppView {
                state: AppStateView {
                    input: app.state.input.remove(app.state.character_index - 1),
                    character_index: (app.state.character_index - 1) as nat,
                    ..app.state
                },
                ..app
            })
            &&& app.state.character_index == 0 ==> app.after_event(key) == app
            &&& app.sends(key) is None
        }),
{
    if app.state.character_index > 0 {
        crate::laws::backspace_takes_the_char_before_the_cursor(app.state);
    }
}

/// With a cursor behind the end of the text, Backspace takes out nothing. The cursor goes one
/// back, and no further than the bytes of the text.
pub proof fn backspace_behind_the_end_takes_out_nothing(app: AppView)
    requires
        app.state.input_mode is Editing,
        app.state.character_index > app.state.input.len(),
    ensures
        ({
            let key = TerminalEvent::Key { code: Key::Backspace, pressed: true };
            let bytes = vstd::utf8::encode_utf8(app.state.input).len();
            let after = app.after_event(key);
            &&& after == (AppView {
                state: AppStateView {
                    character_index: after.state.character_index,
                    ..app.state
                },
                ..app
            })
            &&& app.state.character_index <= bytes ==> after.state.character_index + 1
                == app.state.character_index
            &&& app.state.character_index > bytes ==> after.state.character_index == bytes
            &&& app.sends(key) is None
        }),
{
    let key = TerminalEvent::Key { code: Key::Backspace, pressed: true };
    assert(app.after_event(key).state.input =~= app.state.input);
}

/// Left moves the cursor one character back, and stays at the start; Right moves it one on, and
/// stays at the end. The text stays as it is, nothing else changes, and nothing is sent.
pub proof fn left_and_right_move_the_cursor(app: AppView)
    requires
        app.state.input_mode is Editing,
        app.state.character_index <= app.state.input.len() <= usize::MAX,
    ensures
        ({
            let left = TerminalEvent::Key { code: Key::Left, pressed: true };
            let right = TerminalEvent::Key { code: Key::Right, pressed: true };
            let back = app.after_event(left).state.character_index;
            let on = app.after_event(right).state.character_index;
            &&& app.state.character_index > 0 ==> back + 1 == app.state.character_index
            &&& app.state.character_index == 0 ==> back == 0
            &&& app.state.character_index < app.state.input.len() ==> on
                == app.state.character_index + 1
            &&& app.state.character_index == app.state.input.len() ==> on
                == app.state.input.len()
            &&& app.after_event(left) == (AppView {
                state: AppStateView { character_index: back, ..app.state },
                ..app
            })
            &&& app.after_event(right) == (AppView {
                state: AppStateView { character_index: on, ..app.state },
                ..app
            })
            &&& app.sends(left) is None
            &&& app.sends(right) is None
        }),
{
}

/// From behind the end of the text, Left and Right both lead to its end.
pub proof fn left_and_right_lead_back_to_the_text(app: AppView)
    requires
        app.state.input_mode is Editing,
        app.state.character_index > app.state.input.len(),
    ensures
        ({
            let left = TerminalEvent::Key { code: Key::Left, pressed: true };
            let right = TerminalEvent::Key { code: Key::Right, pressed: true };
            &&& app.after_event(left) == (AppView {
                state: AppStateView { character_index: app.state.input.len(), ..app.state },
                ..app
            })
            &&& app.after_event(right) == app.after_event(left)
            &&& app.sends(left) is None
            &&& app.sends(right) is None
        }),
{
}

/// Esc ends writing: the mode changes, nothing else does, and nothing is sent.
pub proof fn esc_ends_writing(app: AppView)
    requires
        app.state.input_mode is Editing,
    ensures
        ({
            let esc = TerminalEvent::Key { code: Key::Esc, pressed: true };
            &&& app.after_event(esc) == (AppView {
                state: AppStateView { input_mode: InputMode::Normal, ..app.state },
                ..app
            })
            &&& app.sends(esc) is None
        }),
{
}

/// A key without a meaning does nothing in either mode, and no key that is let go does in editing
/// mode; nor does what is no key.
pub proof fn what_has_no_meaning_does_nothing(app: AppView, event: TerminalEvent)
    requires
        match event {
            TerminalEvent::Other => true,
            TerminalEvent::Key { code, pressed } => code == Key::Other || (
            app.state.input_mode is Editing && !pressed),
        },
    ensures
        app.after_event(event) == app,
        app.sends(event) is None,
{
}

// ---- Any move of the cursor, any end of a line ----

/// A move of the cursor ends one character away, unless that is behind `len`: then it ends at
/// `len`. It moves nothing but the cursor.
pub proof fn the_cursor_moves_one_char_within_a_length(state: AppStateView, len: nat)
    requires
        state.character_index <= usize::MAX,
    ensures
        ({
            let left = state.cursor_left(len);
            let right = state.cursor_right(len);
            let at = state.character_index;
            &&& left == (AppStateView { character_index: left.character_index, ..state })
            &&& right == (AppStateView { character_index: right.character_index, ..state })
            &&& left.character_index <= len && right.character_index <= len
            &&& 0 < at <= len ==> left.character_index == at - 1
            &&& at == 0 ==> left.character_index == 0
            &&& at > len ==> left.character_index == len
            &&& at < len && at < usize::MAX ==> right.character_index == at + 1
            &&& at < len && at == usize::MAX ==> right.character_index == at
            &&& at >= len ==> right.character_index == len
        }),
{
}

/// A position no further than a limit is the position itself, or else the limit.
pub proof fn a_limit_is_kept(n: nat, limit: nat)
    ensures
        crate::text::at_most(n, limit) <= limit,
        n <= limit ==> crate::text::at_most(n, limit) == n,
        n > limit ==> crate::text::at_most(n, limit) == limit,
{
}

/// A submission empties the line and ends writing, and a change of mode changes the mode; nothing
/// else changes.
pub proof fn submission_and_mode_change_nothing_else(state: AppStateView, input_mode: InputMode)
    ensures
        state.submitted() == (AppStateView {
            input: Seq::empty(),
            character_index: 0,
            input_mode: InputMode::Normal,
            ..state
        }),
        state.in_mode(input_mode) == (AppStateView { input_mode, ..state }),
{
}

} // verus!
