use chat_tui::error::Application;
use chat_tui::reply::{full_reply, stream_step, Framer, Reply};
use chat_tui::ui::{Action, ChatUI, InputMode, Item, Key, Role, Spinner, Turn};

const LOG: &str = "/home/u/.config/chat_tui/logs/errors.log";

fn turns(ui: &ChatUI) -> Vec<(Role, String)> {
    ui.messages()
        .iter()
        .map(|t: &Turn| (t.role, t.content.clone()))
        .collect()
}

fn submit(ui: &mut ChatUI, prompt: &str) {
    assert!(ui.run(Key::Char('e')).is_none());
    for c in prompt.chars() {
        assert!(ui.run(Key::Char(c)).is_none());
    }
    match ui.run(Key::Enter) {
        Some(Action::Send(m)) => assert_eq!(m, prompt),
        other => panic!("expected a request, got {:?}", other),
    }
}

fn reply_of(bytes: &[u8]) -> Reply {
    let v: serde_json::Value = serde_json::from_slice(bytes).unwrap();
    Reply {
        content: v["message"]["content"].as_str().map(String::from),
        choice_content: v["choices"][0]["message"]["content"].as_str().map(String::from),
        done: v["done"].as_bool(),
    }
}

#[test]
fn new_state_is_empty_and_normal() {
    let ui = ChatUI::new();
    assert!(ui.messages().is_empty());
    assert_eq!(ui.mode(), InputMode::Normal);
    assert_eq!(ui.selected(), None);
    assert_eq!(ui.h_scroll(), 0);
    assert_eq!(ui.input(), "");
}

#[test]
fn submit_appends_user_turn_and_placeholder() {
    let mut ui = ChatUI::new();
    submit(&mut ui, "hi");
    assert_eq!(ui.mode(), InputMode::Waiting);
    assert_eq!(
        turns(&ui),
        vec![
            (Role::User, "hi".to_string()),
            (Role::System, "Sending request...".to_string())
        ]
    );
    assert_eq!(ui.input(), "");
}

#[test]
fn happy_streaming() {
    let mut ui = ChatUI::new();
    submit(&mut ui, "hi");
    let mut framer = Framer::new();
    let parts: [&[u8]; 3] = [
        b"{\"message\":{\"content\":\"he\"}}{\"message\":{\"con",
        b"tent\":\"llo\"}}\n",
        b"{\"done\":true}",
    ];
    let mut finished = false;
    for p in parts {
        framer.push(p);
        while let Some(frame) = framer.next_frame() {
            let (items, stop) = stream_step(reply_of(&frame));
            for item in items {
                finished = ui.receive(item, LOG);
            }
            if stop {
                assert!(finished);
            }
        }
    }
    assert!(finished);
    assert_eq!(
        turns(&ui),
        vec![
            (Role::User, "hi".to_string()),
            (Role::Assistant, "hello".to_string())
        ]
    );
    assert_eq!(ui.mode(), InputMode::Normal);
}

#[test]
fn happy_non_streaming() {
    let mut ui = ChatUI::new();
    submit(&mut ui, "ping");
    let items = full_reply(Ok(reply_of(b"{\"message\":{\"content\":\"pong\"}}")));
    let mut done = false;
    for item in items {
        done = ui.receive(item, LOG);
    }
    assert!(done);
    assert_eq!(
        turns(&ui),
        vec![
            (Role::User, "ping".to_string()),
            (Role::Assistant, "pong".to_string())
        ]
    );
    assert_eq!(ui.mode(), InputMode::Normal);
}

#[test]
fn cancellation_mid_stream() {
    let mut ui = ChatUI::new();
    submit(&mut ui, "tell me");
    assert!(!ui.receive(Item::Chunk("par".to_string()), LOG));
    match ui.run(Key::Esc) {
        Some(Action::CancelRequest) => {}
        other => panic!("expected a cancellation, got {:?}", other),
    }
    let expected = vec![
        (Role::User, "tell me".to_string()),
        (Role::Assistant, "par".to_string()),
        (Role::Assistant, "request cancelled".to_string()),
    ];
    assert_eq!(turns(&ui), expected);
    assert_eq!(ui.mode(), InputMode::Normal);
    assert!(ui.receive(Item::Chunk("tial".to_string()), LOG));
    assert!(ui.receive(Item::End, LOG));
    assert_eq!(turns(&ui), expected);
}

#[test]
fn cancellation_before_any_chunk_removes_placeholder() {
    let mut ui = ChatUI::new();
    submit(&mut ui, "q");
    assert!(matches!(ui.update(Key::Esc), Some(Action::CancelRequest)));
    assert_eq!(
        turns(&ui),
        vec![
            (Role::User, "q".to_string()),
            (Role::Assistant, "request cancelled".to_string())
        ]
    );
}

#[test]
fn update_outside_waiting_does_nothing() {
    let mut ui = ChatUI::new();
    assert!(ui.update(Key::Esc).is_none());
    assert_eq!(ui.mode(), InputMode::Normal);
}

#[test]
fn transport_failure() {
    let mut ui = ChatUI::new();
    submit(&mut ui, "hello?");
    assert!(ui.receive(
        Item::Failure(Application::Network("connection refused".to_string())),
        LOG
    ));
    assert_eq!(
        turns(&ui),
        vec![
            (Role::User, "hello?".to_string()),
            (
                Role::Assistant,
                "error: There was a problem connecting to the server".to_string()
            ),
            (
                Role::Assistant,
                format!("for more details, please check the log file at: {}", LOG)
            ),
        ]
    );
    assert_eq!(ui.mode(), InputMode::Normal);
}

#[test]
fn decode_failure() {
    let mut ui = ChatUI::new();
    submit(&mut ui, "x");
    let items = full_reply(Ok(reply_of(b"{\"model\":\"m\"}")));
    assert_eq!(items.len(), 1);
    for item in items {
        assert!(ui.receive(item, LOG));
    }
    assert_eq!(
        turns(&ui),
        vec![
            (Role::User, "x".to_string()),
            (
                Role::Assistant,
                "error: There was an issue processing the server response".to_string()
            ),
            (
                Role::Assistant,
                format!("for more details, please check the log file at: {}", LOG)
            ),
        ]
    );
}

#[test]
fn undecodable_body_is_a_decode_failure() {
    let items = full_reply(Err("expected value".to_string()));
    assert_eq!(items.len(), 1);
    match &items[0] {
        Item::Failure(Application::JsonParse(d)) => assert_eq!(d, "expected value"),
        other => panic!("unexpected {:?}", other),
    }
}

#[test]
fn full_reply_prefers_message_content_over_choices() {
    let both = reply_of(
        b"{\"message\":{\"content\":\"a\"},\"choices\":[{\"message\":{\"content\":\"b\"}}]}",
    );
    let items = full_reply(Ok(both));
    assert!(matches!(&items[0], Item::Chunk(c) if c == "a"));
    assert!(matches!(&items[1], Item::End));
    let legacy = reply_of(b"{\"choices\":[{\"message\":{\"content\":\"b\"}}]}");
    let items = full_reply(Ok(legacy));
    assert!(matches!(&items[0], Item::Chunk(c) if c == "b"));
    assert_eq!(items.len(), 2);
}

#[test]
fn stream_step_without_content_or_done() {
    let (items, stop) = stream_step(Reply {
        content: None,
        choice_content: None,
        done: Some(false),
    });
    assert!(items.is_empty());
    assert!(!stop);
    let (items, stop) = stream_step(Reply {
        content: Some("x".to_string()),
        choice_content: None,
        done: Some(true),
    });
    assert!(stop);
    assert_eq!(items.len(), 2);
    assert!(matches!(&items[0], Item::Chunk(c) if c == "x"));
    assert!(matches!(&items[1], Item::End));
}

#[test]
fn end_without_content_reports_unexpected_error() {
    let mut ui = ChatUI::new();
    submit(&mut ui, "x");
    assert!(ui.receive(Item::End, LOG));
    assert_eq!(
        turns(&ui),
        vec![
            (Role::User, "x".to_string()),
            (
                Role::Assistant,
                "unexpected error occured. Please check the log file for more details".to_string()
            ),
        ]
    );
}

#[test]
fn chunks_concatenate_in_order() {
    let mut ui = ChatUI::new();
    submit(&mut ui, "count");
    for c in ["one", " two", "", " three"] {
        assert!(!ui.receive(Item::Chunk(c.to_string()), LOG));
    }
    assert_eq!(ui.mode(), InputMode::Waiting);
    assert!(ui.receive(Item::End, LOG));
    assert_eq!(
        turns(&ui)[1],
        (Role::Assistant, "one two three".to_string())
    );
    assert_eq!(ui.selected(), Some(1));
}

#[test]
fn wrap_and_scroll() {
    let mut ui = ChatUI::new();
    ui.run(Key::Char('e'));
    for c in "abcdefghij".chars() {
        ui.run(Key::Char(c));
    }
    let _ = ui.draw(40, 10);
    assert_eq!(ui.input_width(), 8);
    for _ in 0..3 {
        ui.run(Key::Right);
    }
    assert_eq!(ui.h_scroll(), 2);
    ui.run(Key::Left);
    assert_eq!(ui.h_scroll(), 1);
    ui.run(Key::Left);
    ui.run(Key::Left);
    assert_eq!(ui.h_scroll(), 0);
}

#[test]
fn backspace_keeps_scroll_in_bounds() {
    let mut ui = ChatUI::new();
    ui.run(Key::Char('e'));
    for c in "abcdefghij".chars() {
        ui.run(Key::Char(c));
    }
    ui.set_input_width(8);
    ui.run(Key::Right);
    ui.run(Key::Right);
    assert_eq!(ui.h_scroll(), 2);
    ui.run(Key::Backspace);
    assert_eq!(ui.input(), "abcdefghi");
    assert_eq!(ui.h_scroll(), 1);
    ui.set_input_width(20);
    assert_eq!(ui.h_scroll(), 0);
}

#[test]
fn enter_with_empty_input_is_ignored() {
    let mut ui = ChatUI::new();
    ui.run(Key::Char('e'));
    assert!(ui.run(Key::Enter).is_none());
    assert_eq!(ui.mode(), InputMode::Editing);
    assert!(ui.messages().is_empty());
    ui.run(Key::Char('a'));
    ui.run(Key::Backspace);
    ui.run(Key::Backspace);
    assert!(ui.run(Key::Enter).is_none());
    assert!(ui.messages().is_empty());
}

#[test]
fn selection_saturates_at_both_ends() {
    let mut ui = ChatUI::new();
    ui.run(Key::Up);
    assert_eq!(ui.selected(), None);
    submit(&mut ui, "a");
    ui.receive(Item::Chunk("b".to_string()), LOG);
    ui.receive(Item::End, LOG);
    assert_eq!(ui.selected(), Some(1));
    ui.run(Key::Down);
    assert_eq!(ui.selected(), Some(1));
    ui.run(Key::Up);
    assert_eq!(ui.selected(), Some(0));
    ui.run(Key::Up);
    assert_eq!(ui.selected(), Some(0));
    ui.run(Key::Down);
    assert_eq!(ui.selected(), Some(1));
}

#[test]
fn mode_keys() {
    let mut ui = ChatUI::new();
    ui.run(Key::Char('x'));
    assert_eq!(ui.mode(), InputMode::Normal);
    ui.run(Key::Char('e'));
    assert_eq!(ui.mode(), InputMode::Editing);
    ui.run(Key::Char('q'));
    assert_eq!(ui.input(), "q");
    ui.run(Key::Esc);
    assert_eq!(ui.mode(), InputMode::Normal);
    assert!(matches!(ui.run(Key::Char('q')), Some(Action::Quit)));
}

#[test]
fn keys_other_than_esc_are_ignored_while_waiting() {
    let mut ui = ChatUI::new();
    submit(&mut ui, "a");
    assert!(ui.run(Key::Char('q')).is_none());
    assert!(ui.run(Key::Enter).is_none());
    assert_eq!(ui.mode(), InputMode::Waiting);
    assert_eq!(ui.messages().len(), 2);
}

#[test]
fn add_response_replaces_placeholder() {
    let mut ui = ChatUI::new();
    submit(&mut ui, "a");
    ui.add_response("done".to_string());
    assert_eq!(
        turns(&ui),
        vec![
            (Role::User, "a".to_string()),
            (Role::Assistant, "done".to_string())
        ]
    );
    assert_eq!(ui.mode(), InputMode::Normal);
    assert_eq!(ui.selected(), Some(1));
}

#[test]
fn spinner_cycles_through_frames() {
    let mut s = Spinner::new();
    let first = s.next();
    assert_eq!(first, '\u{280b}');
    assert_eq!(s.next(), '\u{2819}');
    for _ in 0..8 {
        s.next();
    }
    assert_eq!(s.next(), first);
}

#[test]
fn user_friendly_messages() {
    let d = || "d".to_string();
    assert_eq!(
        Application::Config(d()).user_friendly_message(),
        "There was an issue with the application configuration"
    );
    assert_eq!(
        Application::Ui(d()).user_friendly_message(),
        "An error occured in the user interface"
    );
    assert_eq!(
        Application::Network(d()).user_friendly_message(),
        "There was a problem connecting to the server"
    );
    assert_eq!(
        Application::JsonParse(d()).user_friendly_message(),
        "There was an issue processing the server response"
    );
    assert_eq!(
        Application::Logging(d()).user_friendly_message(),
        "There was a problem setting up the application logs"
    );
    assert_eq!(
        Application::Unexpected(d()).user_friendly_message(),
        "An unexpected error occured"
    );
    assert_eq!(Application::Logging("x".to_string()).detail(), "x");
}
