use encro_terminal::app::App;
use encro_terminal::layout::Area;
use encro_terminal::screen::arrange;
use encro_terminal::screen::can_draw;
use encro_terminal::screen::compose;
use encro_terminal::screen::Place;
use encro_terminal::screen::Screen;
use encro_terminal::state::AppState;
use encro_terminal::state::InputMode;
use encro_terminal::state::ScrollState;
use encro_terminal::state::TextStyle;

fn area(x: u16, y: u16, width: u16, height: u16) -> Area {
    Area { x, y, width, height }
}

fn draw(frame: Area, state: &AppState) -> Option<Screen> {
    let areas = arrange(frame, !state.chat_messages.is_empty());
    if can_draw(state, &areas) {
        Some(App::draw(frame, state))
    } else {
        None
    }
}

fn help(screen: &Screen) -> String {
    let mut text = String::new();
    for label in &screen.help {
        if label.bold {
            text.push_str(&format!("*{}*", label.text));
        } else {
            text.push_str(&label.text);
        }
    }
    text
}

#[test]
fn the_command_view_is_drawn() {
    let mut app = App::new();
    app.write_new_message("one".to_string(), TextStyle::Normal);
    app.write_new_message("two".to_string(), TextStyle::Bold);
    app.move_vertical_scroll_down();
    let screen = draw(area(0, 0, 80, 24), &app.get_state()).unwrap();
    assert_eq!(screen.areas.help, area(0, 0, 80, 1));
    assert_eq!(screen.areas.input, area(0, 1, 80, 3));
    assert_eq!(screen.areas.body, area(0, 4, 80, 20));
    assert_eq!(help(&screen), "Press *q* to exit, *Space* to write");
    assert!(screen.help_blinks);
    assert_eq!(screen.input, "");
    assert_eq!(screen.input_title, "Input");
    assert!(!screen.input_highlighted);
    assert_eq!(screen.cursor, None);
    assert_eq!(screen.title, "Commands");
    assert_eq!(
        screen.lines,
        vec![("one".to_string(), TextStyle::Normal), ("two".to_string(), TextStyle::Bold)]
    );
    assert_eq!(screen.scroll, 1);
    assert_eq!(screen.scrollbar, ScrollState { content_length: 2, position: 0 });
    assert_eq!(screen.scrollbar_area, area(0, 5, 80, 18));
    assert_eq!(screen.scrollbar_begin, '\u{2191}');
    assert_eq!(screen.scrollbar_end, '\u{2193}');
}

#[test]
fn the_chat_is_drawn() {
    let mut app = App::new();
    app.write_new_message("one".to_string(), TextStyle::Bold);
    app.write_chat_new_message("alice".to_string(), "hi".to_string());
    app.move_vertical_scroll_down();
    app.move_vertical_scroll_down();
    let screen = draw(area(2, 3, 40, 10), &app.get_state()).unwrap();
    assert_eq!(screen.areas.body, area(2, 3, 40, 6));
    assert_eq!(screen.areas.help, area(2, 9, 40, 1));
    assert_eq!(screen.areas.input, area(2, 10, 40, 3));
    assert_eq!(help(&screen), "Press *q* to exit, *e* to write");
    assert_eq!(screen.title, "Chat with alice");
    assert_eq!(screen.lines, vec![("hi".to_string(), TextStyle::Normal)]);
    assert_eq!(screen.scroll, 2);
    assert_eq!(screen.scrollbar, ScrollState { content_length: 1, position: 2 });
    assert_eq!(screen.scrollbar_area, area(2, 4, 40, 4));
}

#[test]
fn the_cursor_is_drawn_while_editing() {
    let mut app = App::new();
    app.set_input_mode(InputMode::Editing);
    app.enter_char('\u{e4}');
    app.enter_char('b');
    let screen = draw(area(5, 0, 80, 24), &app.get_state()).unwrap();
    assert_eq!(help(&screen), "Press *Esc* to stop editing, *Enter* to submit the message");
    assert!(!screen.help_blinks);
    assert!(screen.input_highlighted);
    assert_eq!(screen.input, "\u{e4}b");
    assert_eq!(screen.cursor, Some(Place { x: 8, y: 2 }));
}

#[test]
fn the_column_of_the_cursor_wraps() {
    let mut app = App::new();
    app.set_input_mode(InputMode::Editing);
    app.state.character_index = 0x1_0003;
    let areas = arrange(area(0, 0, 80, 24), false);
    assert!(can_draw(&app.state, &areas));
    assert_eq!(compose(&app.state, areas).cursor, Some(Place { x: 4, y: 2 }));
}

#[test]
fn a_cursor_off_the_terminal_is_not_drawn() {
    let mut app = App::new();
    app.state.character_index = 0xffff;
    assert!(draw(area(0, 0, 80, 24), &app.state).is_some());
    app.set_input_mode(InputMode::Editing);
    assert!(draw(area(0, 0, 80, 24), &app.state).is_none());
    app.state.character_index = 0xfffe;
    assert!(draw(area(0, 0, 80, 24), &app.state).is_some());
    assert!(draw(area(1, 0, 80, 24), &app.state).is_none());
}

#[test]
fn a_view_scrolled_too_far_is_not_drawn() {
    let mut app = App::new();
    app.state.vertical_position_commands = 0xffff;
    assert_eq!(draw(area(0, 0, 80, 24), &app.state).unwrap().scroll, 0xffff);
    app.state.vertical_position_commands = 0x1_0000;
    assert!(draw(area(0, 0, 80, 24), &app.state).is_none());
    app.write_chat_new_message("alice".to_string(), "hi".to_string());
    assert_eq!(draw(area(0, 0, 80, 24), &app.state).unwrap().scroll, 0);
}

#[test]
fn rows_that_fit_get_what_they_ask_for() {
    for y in [0u16, 1, 17, 300] {
        for height in (5u16..=70).chain([255, 1000, 30000, 40000, 65000]) {
            let frame = area(7, y, 33, height);
            let plain = arrange(frame, false);
            assert_eq!(plain.help, area(7, y, 33, 1));
            assert_eq!(plain.input, area(7, y + 1, 33, 3));
            assert_eq!(plain.body, area(7, y + 4, 33, height - 4));
            let chat = arrange(frame, true);
            assert_eq!(chat.body, area(7, y, 33, height - 4));
            assert_eq!(chat.help, area(7, y + height - 4, 33, 1));
            assert_eq!(chat.input, area(7, y + height - 3, 33, 3));
        }
    }
}

#[test]
fn small_frames_show_the_view_first() {
    let heights = [(0u16, 0u16, 0u16), (1, 0, 0), (1, 1, 0), (1, 1, 1), (1, 1, 2), (1, 1, 3)];
    for y in [0u16, 1, 2, 3, 24, 999, 1000, 32767, 40001, 65529, 65530] {
        for (height, (body, help, input)) in (0u16..).zip(heights) {
            let frame = area(2, y, 9, height);
            let plain = arrange(frame, false);
            assert_eq!(plain.help, area(2, y, 9, help));
            assert_eq!(plain.input, area(2, y + help, 9, input));
            assert_eq!(plain.body, area(2, y + help + input, 9, body));
            let chat = arrange(frame, true);
            assert_eq!(chat.body, area(2, y, 9, body));
            assert_eq!(chat.help, area(2, y + body, 9, help));
            assert_eq!(chat.input, area(2, y + body + help, 9, input));
        }
    }
}

#[test]
fn rows_end_with_the_lines_that_can_be_counted() {
    for (y, lines) in [(65535u16, 0u16), (65534, 1), (65532, 3), (65530, 5), (65000, 535)] {
        for extra in [1u16, 2, 10, 65535] {
            let height = lines.saturating_add(extra);
            for chat in [false, true] {
                let cut = arrange(area(2, y, 9, height), chat);
                let whole = arrange(area(2, y, 9, lines), chat);
                assert_eq!(cut, whole);
            }
        }
    }
}

#[test]
fn a_body_of_one_line_has_no_scrollbar() {
    let app = App::new();
    let screen = draw(area(4, 2, 80, 5), &app.state).unwrap();
    assert_eq!(screen.areas.body, area(4, 6, 80, 1));
    assert_eq!(screen.scrollbar_area, area(0, 0, 0, 0));
}

#[test]
fn the_hidden_view_does_not_show() {
    for height in [0u16, 1, 2, 3, 4, 5, 24] {
        for chat in [false, true] {
            let mut one = App::new();
            let mut other = App::new();
            if chat {
                one.write_chat_new_message("alice".to_string(), "hi".to_string());
                other.write_chat_new_message("alice".to_string(), "hi".to_string());
                other.write_new_message("hidden".to_string(), TextStyle::Bold);
                other.state.vertical_position_commands = 0x1_0000;
            } else {
                other.state.chatid = "alice".to_string();
                other.state.vertical_position_chat = 0x1_0000;
                other.state.scrollstate_chat = ScrollState { content_length: 4, position: 2 };
            }
            let frame = area(0, 0, 80, height);
            let first = draw(frame, &one.state).unwrap();
            let second = draw(frame, &other.state).unwrap();
            assert_eq!(format!("{:?}", first), format!("{:?}", second));
        }
    }
}
