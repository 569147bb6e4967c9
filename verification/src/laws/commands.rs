//! What each command does to the views, and commands one after the other.

use crate::app::AppView;
use crate::app::PipeEvent;
use crate::command::ChatClosedCommand;
use crate::command::PrintChatCommand;
use crate::command::PrintCommand;
use crate::command::WindowCommand;
use crate::laws::Happening;
use crate::state::AppStateView;
use crate::state::ScrollView;
use crate::state::TextStyle;
use vstd::prelude::*;

verus! {

/// A new application has nothing written and nothing to show, takes keys as commands, is at the
/// top of both views, chats with nobody, and goes on.
pub proof fn a_new_application_is_empty()
    ensures
        ({
            let state = AppStateView::initial();
            &&& state.input.len() == 0
            &&& state.character_index == 0
            &&& state.input_mode is Normal
            &&& state.messages.len() == 0
            &&& state.chat_messages.len() == 0
            &&& state.chatid == "Nobody"@
            &&& state.vertical_position_chat == 0
            &&& state.vertical_position_commands == 0
            &&& state.scrollstate_chat == (ScrollView { content_length: 0, position: 0 })
            &&& state.scrollstate_commands == (ScrollView { content_length: 0, position: 0 })
        }),
{
}

/// A printed line becomes the last line of the command view, whatever it says, and the scrollbar
/// counts it. Nothing else changes.
pub proof fn println_adds_a_line(app: AppView, cmd: PrintCommand)
    ensures
        ({
            let after = app.after_pipe(PipeEvent::Command(WindowCommand::Println(cmd)));
            after == (AppView {
                state: AppStateView {
                    messages: app.state.messages.push((cmd.message@, TextStyle::Normal)),
                    scrollstate_commands: ScrollView {
                        content_length: app.state.messages.len() + 1,
                        ..app.state.scrollstate_commands
                    },
                    ..app.state
                },
                ..app
            })
        }),
{
}

/// Printed text is put behind the last line of the command view, which is in plain style then; it
/// becomes the first line where there is none. Nothing else changes.
pub proof fn print_continues_the_last_line(app: AppView, cmd: PrintCommand)
    ensures
        ({
            let after = app.after_pipe(PipeEvent::Command(WindowCommand::Print(cmd)));
            let last = app.state.messages.len() - 1;
            &&& after == (AppView {
                state: AppStateView { messages: after.state.messages, ..app.state },
                ..app
            })
            &&& app.state.messages.len() == 0 ==> after.state.messages == seq![
                (cmd.message@, TextStyle::Normal),
            ]
            &&& app.state.messages.len() > 0 ==> after.state.messages
                == app.state.messages.update(
                last,
                (app.state.messages[last].0 + cmd.message@, TextStyle::Normal),
            )
        }),
{
    let after = app.after_pipe(PipeEvent::Command(WindowCommand::Print(cmd)));
    let last = app.state.messages.len() - 1;
    if last >= 0 {
        assert(after.state.messages =~= app.state.messages.update(
            last,
            (app.state.messages[last].0 + cmd.message@, TextStyle::Normal),
        ));
    }
}

/// A line of a chat is put behind all lines that the chat has, the chat is with its writer from
/// then on, and the scrollbar counts the line. Nothing else changes.
pub proof fn print_chat_adds_a_line(app: AppView, cmd: PrintChatCommand)
    ensures
        ({
            let after = app.after_pipe(PipeEvent::Command(WindowCommand::PrintChat(cmd)));
            after == (AppView {
                state: AppStateView {
                    chatid: cmd.chatid@,
                    chat_messages: app.state.chat_messages.push(cmd.message@),
                    scrollstate_chat: ScrollView {
                        content_length: app.state.chat_messages.len() + 1,
                        ..app.state.scrollstate_chat
                    },
                    ..app.state
                },
                ..app
            })
        }),
{
}

/// The end of a chat takes all its lines away, and is told in bold on a last line of the command
/// view, which the scrollbar counts. Nothing else changes.
pub proof fn the_end_of_a_chat_is_told(app: AppView, cmd: ChatClosedCommand)
    ensures
        ({
            let after = app.after_pipe(PipeEvent::Command(WindowCommand::ChatClosed(cmd)));
            after == (AppView {
                state: AppStateView {
                    messages: app.state.messages.push((cmd.message@, TextStyle::Bold)),
                    chat_messages: Seq::empty(),
                    scrollstate_commands: ScrollView {
                        content_length: app.state.messages.len() + 1,
                        ..app.state.scrollstate_commands
                    },
                    ..app.state
                },
                ..app
            })
        }),
{
}

/// No other command changes anything, nor does a wait without one.
pub proof fn other_commands_change_nothing(app: AppView, event: PipeEvent)
    requires
        match event {
            PipeEvent::Closed => true,
            PipeEvent::TimedOut => true,
            PipeEvent::Command(command) => {
                ||| command is Read
                ||| command is New
                ||| command is Init
                ||| command is Shutdown
            },
        },
    ensures
        app.after_pipe(event) == app,
{
}

/// What a command does is what it does when it comes through the pipe.
pub proof fn the_pipe_delivers_commands(app: AppView, command: WindowCommand)
    ensures
        app.after_pipe(PipeEvent::Command(command)) == app.after_command(command),
{
}

/// An application in another state goes on as it did.
pub proof fn another_state_changes_nothing_else(app: AppView, state: AppStateView)
    ensures
        app.with_state(state) == (AppView { state, should_run: app.should_run }),
{
}

/// A line of any style is put behind all others, and the scrollbar counts it; so is a line of a
/// chat with anyone. Text of any style is put behind the last line, and sets its style. A chat that
/// is cleared has no lines. Nothing else changes.
pub proof fn lines_are_put_behind_the_others(
    state: AppStateView,
    chatid: Seq<char>,
    message: Seq<char>,
    style: TextStyle,
)
    ensures
        state.with_message(message, style) == (AppStateView {
            messages: state.messages.push((message, style)),
            scrollstate_commands: ScrollView {
                content_length: state.messages.len() + 1,
                ..state.scrollstate_commands
            },
            ..state
        }),
        ({
            let after = state.with_last_message(message, style);
            let last = state.messages.len() - 1;
            &&& after == (AppStateView { messages: after.messages, ..state })
            &&& state.messages.len() == 0 ==> after.messages == seq![(message, style)]
            &&& state.messages.len() > 0 ==> after.messages == state.messages.update(
                last,
                (state.messages[last].0 + message, style),
            )
        }),
        state.with_chat_message(chatid, message) == (AppStateView {
            chatid,
            chat_messages: state.chat_messages.push(message),
            scrollstate_chat: ScrollView {
                content_length: state.chat_messages.len() + 1,
                ..state.scrollstate_chat
            },
            ..state
        }),
        state.without_chat() == (AppStateView { chat_messages: Seq::empty(), ..state }),
{
    let after = state.with_last_message(message, style);
    let last = state.messages.len() - 1;
    if last >= 0 {
        assert(after.messages =~= state.messages.update(
            last,
            (state.messages[last].0 + message, style),
        ));
    }
}

// ---- One after the other ----

/// The application after one command after the other.
pub open spec fn after_commands(app: AppView, commands: Seq<WindowCommand>) -> AppView
    decreases commands.len(),
{
    if commands.len() == 0 {
        app
    } else {
        after_commands(app, commands.drop_last()).after_pipe(PipeEvent::Command(commands.last()))
    }
}

/// The texts of the lines of a chat.
pub open spec fn chat_texts(chats: Seq<PrintChatCommand>) -> Seq<Seq<char>> {
    Seq::new(chats.len(), |i: int| chats[i].message@)
}

/// The lines of a chat stand in the order in which they came, behind those that stood there, each
/// as it came, however many there are. The command view stays as it is.
pub proof fn chat_lines_stand_in_order(app: AppView, chats: Seq<PrintChatCommand>)
    ensures
        ({
            let commands = Seq::new(chats.len(), |i: int| WindowCommand::PrintChat(chats[i]));
            let after = after_commands(app, commands);
            &&& after.state.chat_messages == app.state.chat_messages + chat_texts(chats)
            &&& after.state.messages == app.state.messages
            &&& chats.len() > 0 ==> after.state.chatid == chats.last().chatid@
            &&& chats.len() > 0 ==> after.state.scrollstate_chat.content_length
                == app.state.chat_messages.len() + chats.len()
        }),
    decreases chats.len(),
{
    let commands = Seq::new(chats.len(), |i: int| WindowCommand::PrintChat(chats[i]));
    let after = after_commands(app, commands);
    if chats.len() == 0 {
        assert(after.state.chat_messages =~= app.state.chat_messages + chat_texts(chats));
    } else {
        let fewer = chats.drop_last();
        chat_lines_stand_in_order(app, fewer);
        assert(commands.drop_last() =~= Seq::new(
            fewer.len(),
            |i: int| WindowCommand::PrintChat(fewer[i]),
        ));
        print_chat_adds_a_line(after_commands(app, commands.drop_last()), chats.last());
        assert(after.state.chat_messages =~= app.state.chat_messages + chat_texts(chats));
    }
}

/// The lines printed one after the other.
pub open spec fn printed_lines(cmds: Seq<PrintCommand>) -> Seq<(Seq<char>, TextStyle)> {
    Seq::new(cmds.len(), |i: int| (cmds[i].message@, TextStyle::Normal))
}

/// Printed lines stand in the order in which they came, behind those that stood there, each as it
/// came, however many there are. The chat stays as it is.
pub proof fn printed_lines_stand_in_order(app: AppView, cmds: Seq<PrintCommand>)
    ensures
        ({
            let commands = Seq::new(cmds.len(), |i: int| WindowCommand::Println(cmds[i]));
            let after = after_commands(app, commands);
            &&& after.state.messages == app.state.messages + printed_lines(cmds)
            &&& after.state.chat_messages == app.state.chat_messages
        }),
    decreases cmds.len(),
{
    let commands = Seq::new(cmds.len(), |i: int| WindowCommand::Println(cmds[i]));
    let after = after_commands(app, commands);
    if cmds.len() == 0 {
        assert(after.state.messages =~= app.state.messages + printed_lines(cmds));
    } else {
        let fewer = cmds.drop_last();
        printed_lines_stand_in_order(app, fewer);
        assert(commands.drop_last() =~= Seq::new(
            fewer.len(),
            |i: int| WindowCommand::Println(fewer[i]),
        ));
        println_adds_a_line(after_commands(app, commands.drop_last()), cmds.last());
        assert(after.state.messages =~= app.state.messages + printed_lines(cmds));
    }
}

/// Text printed in two pieces is the text printed in one.
pub proof fn pieces_make_one_line(
    app: AppView,
    first: PrintCommand,
    second: PrintCommand,
    both: PrintCommand,
)
    requires
        both.message@ == first.message@ + second.message@,
    ensures
        app.after_pipe(PipeEvent::Command(WindowCommand::Print(first))).after_pipe(
            PipeEvent::Command(WindowCommand::Print(second)),
        ) == app.after_pipe(PipeEvent::Command(WindowCommand::Print(both))),
{
    let one = app.after_pipe(PipeEvent::Command(WindowCommand::Print(first)));
    let two = one.after_pipe(PipeEvent::Command(WindowCommand::Print(second)));
    let at_once = app.after_pipe(PipeEvent::Command(WindowCommand::Print(both)));
    print_continues_the_last_line(app, first);
    print_continues_the_last_line(one, second);
    print_continues_the_last_line(app, both);
    let last = app.state.messages.len() - 1;
    if last >= 0 {
        let text = app.state.messages[last].0;
        assert(text + first.message@ + second.message@ =~= text + both.message@);
    }
    assert(two.state.messages =~= at_once.state.messages);
}

/// No line of a chat is lost or changed until the chat is closed, whatever else happens.
pub proof fn no_chat_line_is_lost(app: AppView, happenings: Seq<Happening>)
    requires
        forall|i: int|
            0 <= i < happenings.len() ==> !(#[trigger] happenings[i] matches Happening::Pipe(
                PipeEvent::Command(WindowCommand::ChatClosed(_)),
            )),
    ensures
        app.state.chat_messages.is_prefix_of(
            crate::laws::after_many(app, happenings).state.chat_messages,
        ),
    decreases happenings.len(),
{
    if happenings.len() == 0 {
        assert(app.state.chat_messages =~= app.state.chat_messages.subrange(
            0,
            app.state.chat_messages.len() as int,
        ));
    } else {
        let fewer = happenings.drop_last();
        let before = app.state.chat_messages;
        let app2 = crate::laws::after_many(app, fewer);
        let after = crate::laws::after_many(app, happenings).state.chat_messages;
        assert forall|i: int| 0 <= i < fewer.len() implies !(
        #[trigger] fewer[i] matches Happening::Pipe(
            PipeEvent::Command(WindowCommand::ChatClosed(_)),
        )) by {
            assert(fewer[i] == happenings[i]);
        }
        no_chat_line_is_lost(app, fewer);
        assert(happenings.last() == happenings[happenings.len() - 1]);
        match happenings.last() {
            Happening::Terminal(event) => crate::laws::keys_keep_the_lines(app2, event),
            Happening::Pipe(event) => {},
        }
        assert(before =~= after.subrange(0, before.len() as int));
    }
}

/// A chat that is opened again begins anew: it has the line that opened it, and no other.
pub proof fn a_closed_chat_begins_anew(
    app: AppView,
    closed: ChatClosedCommand,
    chat: PrintChatCommand,
)
    ensures
        app.after_pipe(PipeEvent::Command(WindowCommand::ChatClosed(closed))).after_pipe(
            PipeEvent::Command(WindowCommand::PrintChat(chat)),
        ).state.chat_messages == seq![chat.message@],
{
    let after = app.after_pipe(PipeEvent::Command(WindowCommand::ChatClosed(closed))).after_pipe(
        PipeEvent::Command(WindowCommand::PrintChat(chat)),
    );
    assert(after.state.chat_messages =~= seq![chat.message@]);
}

} // verus!
