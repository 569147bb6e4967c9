use encro_terminal::app::App;
use encro_terminal::app::Key;
use encro_terminal::app::KeyStep;
use encro_terminal::app::PipeEvent;
use encro_terminal::app::PipeStep;
use encro_terminal::app::TerminalEvent;
use encro_terminal::command::ChatClosedCommand;
use encro_terminal::command::NewWindowCommand;
use encro_terminal::command::PrintChatCommand;
use encro_terminal::command::PrintCommand;
use encro_terminal::command::ReadCommand;
use encro_terminal::command::WindowCommand;
use encro_terminal::state::InputMode;
use encro_terminal::state::TextStyle;

fn press(app: &mut App, code: Key) -> KeyStep {
    app.run_event(TerminalEvent::Key { code, pressed: true })
}

fn release(app: &mut App, code: Key) -> KeyStep {
    app.run_event(TerminalEvent::Key { code, pressed: false })
}

fn type_text(app: &mut App, text: &str) {
    for c in text.chars() {
        let step = press(app, Key::Char(c));
        assert_eq!(step.send, None);
        assert!(step.keep_running);
    }
}

fn editing() -> App {
    let mut app = App::new();
    press(&mut app, Key::Char(' '));
    app
}

fn command(app: &mut App, command: WindowCommand) -> PipeStep {
    app.run_pipe(PipeEvent::Command(command))
}

fn println(app: &mut App, message: &str) -> PipeStep {
    command(app, WindowCommand::Println(PrintCommand { window: 1, message: message.to_string() }))
}

fn print(app: &mut App, message: &str) -> PipeStep {
    command(app, WindowCommand::Print(PrintCommand { window: 0, message: message.to_string() }))
}

fn print_chat(app: &mut App, chatid: &str, message: &str) -> PipeStep {
    command(
        app,
        WindowCommand::PrintChat(PrintChatCommand {
            chatid: chatid.to_string(),
            message: message.to_string(),
        }),
    )
}

fn close_chat(app: &mut App, message: &str) -> PipeStep {
    command(
        app,
        WindowCommand::ChatClosed(ChatClosedCommand { message: message.to_string() }),
    )
}

fn lines(app: &App) -> Vec<(String, TextStyle)> {
    app.get_state().messages
}

#[test]
fn a_new_app_is_empty() {
    let app = App::new();
    let state = app.get_state();
    assert!(app.should_run());
    assert_eq!(app.get_input(), "");
    assert_eq!(app.get_input_len(), 0);
    assert_eq!(app.get_character_index(), 0);
    assert_eq!(app.get_input_mode(), InputMode::Normal);
    assert!(state.messages.is_empty());
    assert!(state.chat_messages.is_empty());
    assert_eq!(state.chatid, "Nobody");
    assert_eq!(state.vertical_position_chat, 0);
    assert_eq!(state.vertical_position_commands, 0);
    assert_eq!(state.scrollstate_chat.position, 0);
    assert_eq!(state.scrollstate_commands.content_length, 0);
}

#[test]
fn a_typed_line_is_sent() {
    let mut app = editing();
    type_text(&mut app, "hello q");
    assert_eq!(app.get_input(), "hello q");
    assert_eq!(app.get_character_index(), 7);
    let step = press(&mut app, Key::Enter);
    assert_eq!(step.send, Some(Some("hello q".to_string())));
    assert!(step.keep_running);
    assert_eq!(app.get_input(), "");
    assert_eq!(app.get_character_index(), 0);
    assert_eq!(app.get_input_mode(), InputMode::Normal);
}

#[test]
fn an_empty_line_is_sent_too() {
    let mut app = editing();
    assert_eq!(press(&mut app, Key::Enter).send, Some(Some(String::new())));
}

#[test]
fn text_of_several_bytes_is_counted_in_characters() {
    let mut app = editing();
    type_text(&mut app, "\u{e4}\u{20ac}\u{1f600}");
    assert_eq!(app.get_input(), "\u{e4}\u{20ac}\u{1f600}");
    assert_eq!(app.get_input_len(), 3);
    assert_eq!(app.get_character_index(), 3);
    assert_eq!(app.byte_index(), 9);
    press(&mut app, Key::Left);
    assert_eq!(app.byte_index(), 5);
    type_text(&mut app, "x");
    assert_eq!(app.get_input(), "\u{e4}\u{20ac}x\u{1f600}");
    assert_eq!(app.get_character_index(), 3);
    press(&mut app, Key::Backspace);
    press(&mut app, Key::Backspace);
    assert_eq!(app.get_input(), "\u{e4}\u{1f600}");
    assert_eq!(app.get_character_index(), 1);
    assert_eq!(app.byte_index(), 2);
}

#[test]
fn the_cursor_stays_in_the_text() {
    let mut app = editing();
    type_text(&mut app, "abc");
    press(&mut app, Key::Right);
    assert_eq!(app.get_character_index(), 3);
    for expected in [2, 1, 0, 0, 0] {
        press(&mut app, Key::Left);
        assert_eq!(app.get_character_index(), expected);
    }
    press(&mut app, Key::Backspace);
    assert_eq!(app.get_input(), "abc");
    type_text(&mut app, "_");
    assert_eq!(app.get_input(), "_abc");
    for expected in [2, 3, 4, 4] {
        press(&mut app, Key::Right);
        assert_eq!(app.get_character_index(), expected);
    }
}

#[test]
fn backspace_undoes_a_character() {
    let mut app = editing();
    type_text(&mut app, "one two");
    press(&mut app, Key::Left);
    press(&mut app, Key::Left);
    press(&mut app, Key::Char('\u{e9}'));
    assert_eq!(app.get_input(), "one t\u{e9}wo");
    press(&mut app, Key::Backspace);
    assert_eq!(app.get_input(), "one two");
    assert_eq!(app.get_character_index(), 5);
}

#[test]
fn a_cursor_behind_the_end_writes_at_the_end() {
    let mut app = App::new();
    app.state.input = "ab".to_string();
    app.state.character_index = 9;
    assert_eq!(app.byte_index(), 2);
    app.enter_char('c');
    assert_eq!(app.get_input(), "abc");
    assert_eq!(app.get_character_index(), 3);
    app.state.character_index = 9;
    app.delete_char();
    assert_eq!(app.get_input(), "abc");
    assert_eq!(app.get_character_index(), 3);
}

#[test]
fn the_cursor_is_clamped() {
    let mut app = App::new();
    app.state.character_index = 4;
    app.move_cursor_left(2);
    assert_eq!(app.get_character_index(), 2);
    app.move_cursor_right(10);
    assert_eq!(app.get_character_index(), 3);
    app.state.character_index = usize::MAX;
    app.move_cursor_right(usize::MAX);
    assert_eq!(app.get_character_index(), usize::MAX);
    assert_eq!(app.clamp_cursor(7, 5), 5);
    assert_eq!(app.clamp_cursor(5, 7), 5);
    app.reset_cursor();
    assert_eq!(app.get_character_index(), 0);
}

#[test]
fn escape_keeps_the_line() {
    let mut app = editing();
    type_text(&mut app, "draft");
    press(&mut app, Key::Esc);
    assert_eq!(app.get_input_mode(), InputMode::Normal);
    press(&mut app, Key::Backspace);
    press(&mut app, Key::Char('x'));
    press(&mut app, Key::Enter);
    assert_eq!(app.get_input(), "draft");
    press(&mut app, Key::Char(' '));
    assert_eq!(app.get_input_mode(), InputMode::Editing);
    assert_eq!(app.get_character_index(), 5);
}

#[test]
fn released_keys_count_in_normal_mode_only() {
    let mut app = App::new();
    release(&mut app, Key::Char(' '));
    assert_eq!(app.get_input_mode(), InputMode::Editing);
    assert_eq!(release(&mut app, Key::Char('a')).send, None);
    assert_eq!(release(&mut app, Key::Enter).send, None);
    release(&mut app, Key::Esc);
    assert_eq!(app.get_input(), "");
    assert_eq!(app.get_input_mode(), InputMode::Editing);
    press(&mut app, Key::Esc);
    assert_eq!(release(&mut app, Key::Char('q')).send, Some(None));
    assert!(!app.should_run());
}

#[test]
fn other_events_are_ignored() {
    let mut app = editing();
    type_text(&mut app, "abc");
    let step = app.run_event(TerminalEvent::Other);
    assert_eq!(step.send, None);
    assert!(step.keep_running);
    press(&mut app, Key::Other);
    assert_eq!(app.get_input(), "abc");
    assert_eq!(app.get_character_index(), 3);
}

#[test]
fn q_ends_the_application_in_normal_mode() {
    let mut app = editing();
    assert!(press(&mut app, Key::Char('q')).keep_running);
    assert_eq!(app.get_input(), "q");
    press(&mut app, Key::Esc);
    let step = press(&mut app, Key::Char('q'));
    assert_eq!(step.send, Some(None));
    assert!(!step.keep_running);
    assert!(!press(&mut app, Key::Char(' ')).keep_running);
    assert!(!println(&mut app, "late").keep_running);
    assert_eq!(lines(&app).len(), 1);
}

#[test]
fn lines_are_added_and_continued() {
    let mut app = App::new();
    print(&mut app, "a");
    assert_eq!(lines(&app), vec![("a".to_string(), TextStyle::Normal)]);
    assert_eq!(app.get_state().scrollstate_commands.content_length, 0);
    print(&mut app, "b");
    println(&mut app, "c");
    assert_eq!(app.get_state().scrollstate_commands.content_length, 2);
    print(&mut app, "d");
    assert_eq!(
        lines(&app),
        vec![("ab".to_string(), TextStyle::Normal), ("cd".to_string(), TextStyle::Normal)]
    );
    app.set_last_message(7, "!".to_string(), TextStyle::Italic);
    assert_eq!(lines(&app)[1], ("cd!".to_string(), TextStyle::Italic));
}

#[test]
fn the_chat_opens_and_closes() {
    let mut app = App::new();
    print_chat(&mut app, "alice", "hi");
    print_chat(&mut app, "bob", "ho");
    let state = app.get_state();
    assert_eq!(state.chatid, "bob");
    assert_eq!(state.chat_messages, vec!["hi".to_string(), "ho".to_string()]);
    assert_eq!(state.scrollstate_chat.content_length, 2);
    assert!(state.messages.is_empty());
    let step = close_chat(&mut app, "bob left");
    assert!(step.publish.chat_messages.is_empty());
    assert_eq!(step.publish.messages, vec![("bob left".to_string(), TextStyle::Bold)]);
    assert_eq!(step.publish.chatid, "bob");
    assert_eq!(step.publish.scrollstate_commands.content_length, 1);
    assert!(step.keep_running);
    assert!(!step.report_error);
}

#[test]
fn other_commands_change_nothing() {
    let mut app = editing();
    type_text(&mut app, "abc");
    println(&mut app, "line");
    let others = vec![
        WindowCommand::Init(),
        WindowCommand::Shutdown(),
        WindowCommand::Read(ReadCommand {
            window: 1,
            prompt: "p".to_string(),
            upper_prompt: "u".to_string(),
            timeout: 5,
        }),
        WindowCommand::New(NewWindowCommand {
            win_number: 1,
            start_y: 2,
            win_height: 3,
            win_width: 4,
        }),
    ];
    for other in others {
        let step = command(&mut app, other);
        assert!(!step.report_error);
        assert!(step.keep_running);
        assert_eq!(step.publish.input, "abc");
        assert_eq!(step.publish.messages.len(), 1);
        assert!(step.publish.chat_messages.is_empty());
    }
}

#[test]
fn a_closed_pipe_is_reported() {
    let mut app = App::new();
    assert!(app.run_pipe(PipeEvent::Closed).report_error);
    let step = app.run_pipe(PipeEvent::TimedOut);
    assert!(!step.report_error);
    assert!(step.keep_running);
    assert!(step.publish.messages.is_empty());
}

#[test]
fn scrolling_moves_the_view_that_is_shown() {
    let mut app = App::new();
    press(&mut app, Key::Up);
    assert_eq!(app.get_state().vertical_position_commands, 0);
    press(&mut app, Key::Down);
    press(&mut app, Key::Down);
    let state = app.get_state();
    assert_eq!(state.vertical_position_commands, 2);
    assert_eq!(state.vertical_position_chat, 0);
    assert_eq!(state.scrollstate_commands.position, 0);
    print_chat(&mut app, "alice", "hi");
    press(&mut app, Key::Char(' '));
    press(&mut app, Key::Down);
    press(&mut app, Key::Down);
    press(&mut app, Key::Down);
    press(&mut app, Key::Up);
    let state = app.get_state();
    assert_eq!(state.vertical_position_chat, 2);
    assert_eq!(state.scrollstate_chat.position, 2);
    assert_eq!(state.vertical_position_commands, 2);
    close_chat(&mut app, "closed");
    press(&mut app, Key::Up);
    let state = app.get_state();
    assert_eq!(state.vertical_position_commands, 1);
    assert_eq!(state.scrollstate_commands.position, 2);
    assert_eq!(state.vertical_position_chat, 2);
}

#[test]
fn scrolling_stops_at_the_last_position() {
    let mut app = App::new();
    app.state.vertical_position_commands = usize::MAX;
    app.move_vertical_scroll_down();
    assert_eq!(app.get_state().vertical_position_commands, usize::MAX);
    app.move_vertical_scroll_up();
    assert_eq!(app.get_state().vertical_position_commands, usize::MAX - 1);
}

#[test]
fn keys_and_commands_can_change_places() {
    let mut first = editing();
    let mut second = editing();
    type_text(&mut first, "ab");
    println(&mut first, "line");
    print_chat(&mut first, "alice", "hi");
    print_chat(&mut second, "alice", "hi");
    type_text(&mut second, "a");
    println(&mut second, "line");
    type_text(&mut second, "b");
    let one = first.get_state();
    let two = second.get_state();
    assert_eq!(one.input, two.input);
    assert_eq!(one.character_index, two.character_index);
    assert_eq!(one.messages, two.messages);
    assert_eq!(one.chat_messages, two.chat_messages);
    assert_eq!(one.scrollstate_chat, two.scrollstate_chat);
    assert_eq!(one.scrollstate_commands, two.scrollstate_commands);
}
