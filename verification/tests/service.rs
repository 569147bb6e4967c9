use encro_terminal::chat::format_chat_msg;
use encro_terminal::chat::format_chat_msg_fmt;
use encro_terminal::chat::short_fingerprint;
use encro_terminal::chat::Identity;
use encro_terminal::command::PrintCommand;
use encro_terminal::command::WindowCommand;
use encro_terminal::manager::ServeAction;
use encro_terminal::manager::WindowManager;
use encro_terminal::pipe::WindowPipe;
use encro_terminal::pipe::PIPE_CAPACITY;
use encro_terminal::text::byte_index;
use encro_terminal::text::byte_length;
use std::sync::Arc;

fn print_command(message: &str) -> WindowCommand {
    WindowCommand::Print(PrintCommand { window: 3, message: message.to_string() })
}

#[test]
fn the_terminal_is_started_once() {
    let mut manager = WindowManager::new();
    assert!(matches!(manager.serve(Err(())), ServeAction::Nothing));
    assert!(matches!(manager.serve(Ok(WindowCommand::Init())), ServeAction::StartTerminal));
    assert!(matches!(manager.serve(Ok(WindowCommand::Init())), ServeAction::Nothing));
    assert!(!manager.init());
    assert!(manager.keep_running);
}

#[test]
fn commands_are_handed_on_unchanged() {
    let mut manager = WindowManager::new();
    match manager.serve(Ok(print_command("text"))) {
        ServeAction::Forward(WindowCommand::Print(cmd)) => {
            assert_eq!(cmd.window, 3);
            assert_eq!(cmd.message, "text");
        }
        other => panic!("{:?}", other),
    }
    assert_eq!(manager, WindowManager::new());
}

#[test]
fn shutdown_stops_the_service() {
    let mut manager = WindowManager::new();
    assert!(manager.init());
    assert!(matches!(manager.serve(Ok(WindowCommand::Shutdown())), ServeAction::Nothing));
    assert!(!manager.keep_running);
    manager.cleanup();
    assert_eq!(manager, WindowManager { keep_running: false, terminal_started: true });
}

#[test]
fn a_new_pipe_holds_as_much_as_it_should() {
    let pipe: WindowPipe<u32> = WindowPipe::new();
    let tx = pipe.tx.try_lock().unwrap();
    let mut rx = pipe.rx.try_lock().unwrap();
    assert_eq!(tx.max_capacity(), PIPE_CAPACITY);
    assert_eq!(PIPE_CAPACITY, 50);
    for i in 0..50 {
        assert!(tx.try_send(i).is_ok());
    }
    assert!(tx.try_send(50).is_err());
    for i in 0..50 {
        assert_eq!(rx.try_recv(), Ok(i));
    }
    assert!(rx.try_recv().is_err());
}

#[test]
fn a_cloned_pipe_is_the_same_pipe() {
    let pipe: WindowPipe<u32> = WindowPipe::new();
    let other = pipe.clone();
    assert!(Arc::ptr_eq(&pipe.tx, &other.tx));
    assert!(Arc::ptr_eq(&pipe.rx, &other.rx));
    pipe.tx.try_lock().unwrap().try_send(7).unwrap();
    assert_eq!(other.rx.try_lock().unwrap().try_recv(), Ok(7));
}

#[test]
fn a_read_gives_the_message_or_an_error() {
    assert_eq!(WindowPipe::read(Some("text")), Ok("text"));
    assert_eq!(WindowPipe::<u32>::read(None), Err(()));
}

#[test]
fn a_pipe_carries_commands_between_tasks() {
    let runtime = tokio::runtime::Builder::new_current_thread().build().unwrap();
    let pipe: WindowPipe<WindowCommand> = WindowPipe::new();
    let sender = pipe.clone();
    let received = runtime.block_on(async move {
        sender.tx.lock().await.send(print_command("one")).await.unwrap();
        sender.tx.lock().await.send(print_command("two")).await.unwrap();
        let first = pipe.rx.lock().await.recv().await;
        let second = pipe.rx.lock().await.recv().await;
        (first, second)
    });
    let texts: Vec<String> = [received.0, received.1]
        .into_iter()
        .map(|command| match WindowPipe::read(command) {
            Ok(WindowCommand::Print(cmd)) => cmd.message,
            other => panic!("{:?}", other),
        })
        .collect();
    assert_eq!(texts, vec!["one".to_string(), "two".to_string()]);
}

#[test]
fn long_fingerprints_are_shortened() {
    assert_eq!(short_fingerprint("0123456789abcdef"), "0123...cdef");
    assert_eq!(short_fingerprint("123456789"), "1234...6789");
    assert_eq!(short_fingerprint("12345678"), "12345678");
    assert_eq!(short_fingerprint(""), "");
}

#[test]
fn fingerprints_are_counted_in_bytes() {
    assert_eq!(short_fingerprint("\u{e4}\u{e4}\u{e4}\u{e4}"), "\u{e4}\u{e4}\u{e4}\u{e4}");
    assert_eq!(
        short_fingerprint("\u{e4}\u{e4}\u{20ac}\u{1f600}"),
        "\u{e4}\u{e4}...\u{1f600}"
    );
}

#[test]
fn a_chat_line_names_time_and_writer() {
    let (chat_id, chat_view) =
        format_chat_msg_fmt("hello", "alice", "0123456789abcdef", "2024-11-02 10:00:00");
    assert_eq!(chat_id, "alice");
    assert_eq!(chat_view, "2024-11-02 10:00:00 - alice (0123...cdef): hello");
}

#[test]
fn a_chat_line_is_made_of_an_identity() {
    let encro = Identity { userid: "bob".to_string(), fingerprint: "ff00".to_string() };
    let (chat_id, chat_view) = format_chat_msg("hi: there", &encro, "noon");
    assert_eq!(chat_id, "bob");
    assert_eq!(chat_view, "noon - bob (ff00): hi: there");
}

#[test]
fn byte_positions_are_those_of_characters() {
    let text = "a\u{e4}\u{20ac}b";
    assert_eq!(byte_length(text), 7);
    assert_eq!(byte_index(text, 0), 0);
    assert_eq!(byte_index(text, 2), 3);
    assert_eq!(byte_index(text, 3), 6);
    assert_eq!(byte_index(text, 4), 7);
    assert_eq!(byte_index(text, 100), 7);
}
