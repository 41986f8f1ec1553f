use chat_tui::reply::Framer;
use chat_tui::render::{help_spans, render_turn, spaces, Frame};
use chat_tui::ui::{ChatUI, InputMode, Item, Key, Role};

fn lines_of(f: &Frame, i: usize) -> Vec<(String, String)> {
    f.items[i]
        .lines
        .iter()
        .map(|l| (l.lead.clone(), l.body.clone()))
        .collect()
}

#[test]
fn turns_are_prefixed_and_indented() {
    let e = render_turn(Role::User, "hello world", 10);
    assert_eq!(e.role, Role::User);
    let got: Vec<(String, String)> = e
        .lines
        .iter()
        .map(|l| (l.lead.clone(), l.body.clone()))
        .collect();
    assert_eq!(
        got,
        vec![
            ("You: ".to_string(), "hello".to_string()),
            ("     ".to_string(), "world".to_string())
        ]
    );
    let e = render_turn(Role::Assistant, "ok", 10);
    assert_eq!(e.lines[0].lead, "AI: ");
    let e = render_turn(Role::System, "note", 10);
    assert_eq!(e.lines[0].lead, "");
    assert_eq!(e.lines[0].body, "note");
}

#[test]
fn narrow_list_still_wraps_one_column() {
    let e = render_turn(Role::User, "ab", 3);
    assert_eq!(e.lines.len(), 2);
    assert_eq!(e.lines[0].body, "a");
    assert_eq!(e.lines[1].lead, "     ");
    assert_eq!(e.lines[1].body, "b");
}

#[test]
fn empty_turn_has_no_lines() {
    assert!(render_turn(Role::Assistant, "", 10).lines.is_empty());
}

#[test]
fn spaces_gives_that_many_blanks() {
    assert_eq!(spaces(0), "");
    assert_eq!(spaces(3), "   ");
}

#[test]
fn placeholder_shows_spinner_and_advances_per_draw() {
    let mut ui = ChatUI::new();
    ui.run(Key::Char('e'));
    ui.run(Key::Char('h'));
    ui.run(Key::Char('i'));
    ui.run(Key::Enter);
    let f = ui.draw(40, 20);
    assert_eq!(f.mode, InputMode::Waiting);
    assert_eq!(
        lines_of(&f, 0),
        vec![("You: ".to_string(), "hi".to_string())]
    );
    assert_eq!(
        lines_of(&f, 1),
        vec![(String::new(), "\u{280b} Sending request...".to_string())]
    );
    let f = ui.draw(40, 20);
    assert_eq!(f.items[1].lines[0].body, "\u{2819} Sending request...");
    ui.receive(Item::Chunk("yo".to_string()), "log");
    let f = ui.draw(40, 20);
    assert_eq!(
        lines_of(&f, 1),
        vec![("AI: ".to_string(), "yo".to_string())]
    );
}

#[test]
fn composer_cursor_scrollbar_and_help() {
    let mut ui = ChatUI::new();
    let f = ui.draw(40, 10);
    assert_eq!(f.cursor, None);
    let help: Vec<(String, bool)> = f.help.iter().map(|s| (s.text.clone(), s.bold)).collect();
    assert_eq!(
        help,
        vec![
            ("Press ".to_string(), false),
            ("q".to_string(), true),
            (" to exit, ".to_string(), false),
            ("e".to_string(), true),
            (" to start editing".to_string(), false)
        ]
    );
    ui.run(Key::Char('e'));
    for c in "abcdefgh".chars() {
        ui.run(Key::Char(c));
    }
    let f = ui.draw(40, 10);
    assert_eq!(f.cursor, Some(8));
    assert_eq!(f.input, "abcdefgh");
    assert!(!f.show_h_scrollbar);
    ui.run(Key::Char('i'));
    let f = ui.draw(40, 10);
    assert!(f.show_h_scrollbar);
    assert_eq!(f.help[1].text, "Esc");
    assert_eq!(f.help[3].text, "Enter");
}

#[test]
fn waiting_help_line() {
    let spans = help_spans(InputMode::Waiting);
    let text: String = spans.iter().map(|s| s.text.as_str()).collect();
    assert_eq!(text, "Press Esc to cancel request");
    assert!(spans[1].bold);
}

#[test]
fn framer_waits_for_complete_objects() {
    let mut f = Framer::new();
    f.push(b"{\"a\":{\"b\":");
    assert!(f.next_frame().is_none());
    f.push(b"1}}{\"c\"");
    assert_eq!(f.next_frame().unwrap(), b"{\"a\":{\"b\":1}}".to_vec());
    assert!(f.next_frame().is_none());
    f.push(b":2}");
    assert_eq!(f.next_frame().unwrap(), b"{\"c\":2}".to_vec());
    assert!(f.next_frame().is_none());
}

#[test]
fn framer_ignores_brackets_inside_strings() {
    let mut f = Framer::new();
    f.push(b"{\"s\":\"}{ \\\" ]\"}\n{}");
    assert_eq!(f.next_frame().unwrap(), b"{\"s\":\"}{ \\\" ]\"}".to_vec());
    assert_eq!(f.next_frame().unwrap(), b"\n{}".to_vec());
    assert!(f.next_frame().is_none());
}
