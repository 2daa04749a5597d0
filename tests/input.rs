use chat::input::{InputLine, Key, KeyOutcome, MAX_INPUT};

fn type_text(line: &mut InputLine, text: &str) {
    for c in text.chars() {
        assert_eq!(line.press(Key::Char(c)), KeyOutcome::Idle);
    }
}

#[test]
fn entering_a_line_sends_it_and_remembers_it() {
    let mut line = InputLine::new();
    type_text(&mut line, "hello");
    assert_eq!(line.text(), "hello");
    assert_eq!(line.press(Key::Char('\n')), KeyOutcome::Send("hello".to_string()));
    assert!(line.is_empty());
    assert_eq!(line.press(Key::Up), KeyOutcome::Idle);
    assert_eq!(line.text(), "hello");
}

#[test]
fn entering_an_empty_line_does_nothing() {
    let mut line = InputLine::new();
    assert_eq!(line.press(Key::Char('\n')), KeyOutcome::Idle);
    assert!(line.is_empty());
}

#[test]
fn backspace_and_recall() {
    let mut line = InputLine::new();
    type_text(&mut line, "abc");
    line.press(Key::Backspace);
    assert_eq!(line.text(), "ab");
    line.press(Key::Up);
    assert_eq!(line.text(), "ab");
    line.press(Key::Backspace);
    line.press(Key::Backspace);
    line.press(Key::Backspace);
    assert!(line.is_empty());
    line.press(Key::Other);
    assert!(line.is_empty());
}

#[test]
fn colon_commands() {
    let mut line = InputLine::new();
    type_text(&mut line, ":EXIT");
    assert_eq!(line.press(Key::Char('\n')), KeyOutcome::Exit);
    type_text(&mut line, ":Clear");
    assert_eq!(line.press(Key::Char('\n')), KeyOutcome::ClearMessages);
    type_text(&mut line, ":Dance");
    assert_eq!(
        line.press(Key::Char('\n')),
        KeyOutcome::UnknownCommand("dance".to_string())
    );
}

#[test]
fn escape_leaves() {
    let mut line = InputLine::new();
    type_text(&mut line, "draft");
    assert_eq!(line.press(Key::Esc), KeyOutcome::Exit);
    assert_eq!(line.text(), "draft");
}

#[test]
fn line_length_is_capped() {
    let mut line = InputLine::new();
    type_text(&mut line, &"x".repeat(MAX_INPUT + 5));
    assert_eq!(line.text().chars().count(), MAX_INPUT);
}

#[test]
fn line_length_counts_utf8_bytes() {
    let mut line = InputLine::new();
    type_text(&mut line, &"é".repeat(71));
    assert_eq!(line.text(), "é".repeat(70));
    assert_eq!(line.text().len(), MAX_INPUT);

    let mut line = InputLine::new();
    type_text(&mut line, &"x".repeat(MAX_INPUT - 1));
    line.press(Key::Char('€'));
    line.press(Key::Char('y'));
    assert_eq!(line.text().len(), MAX_INPUT + 2);
    assert!(line.text().ends_with('€'));
}

#[test]
fn whitespace_is_typed() {
    let mut line = InputLine::new();
    line.press(Key::Char(' '));
    line.press(Key::Char('a'));
    assert_eq!(line.text(), " a");
    assert_eq!(line.press(Key::Char('\n')), KeyOutcome::Send(" a".to_string()));
}
