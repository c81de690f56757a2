use chat_relay::connection::{char_is_whitespace, trim, ConnectionError, Message};

#[test]
fn whitespace_is_what_std_calls_whitespace() {
    for code in 0..=0x10ffffu32 {
        if let Some(c) = char::from_u32(code) {
            assert_eq!(char_is_whitespace(c), c.is_whitespace(), "U+{:04X}", code);
        }
    }
}

#[test]
fn trim_removes_whitespace_at_both_ends_only() {
    assert_eq!(trim("hello"), "hello");
    assert_eq!(trim("  hello world \r\n"), "hello world");
    assert_eq!(trim("\thello\t"), "hello");
    assert_eq!(trim("a  b"), "a  b");
    assert_eq!(trim(" a "), "a");
    assert_eq!(trim("x\n"), "x");
    assert_eq!(trim("\nx"), "x");
}

#[test]
fn trim_of_blank_text_is_empty() {
    assert_eq!(trim(""), "");
    assert_eq!(trim(" "), "");
    assert_eq!(trim("\n"), "");
    assert_eq!(trim(" \t\r\n "), "");
    assert_eq!(trim("\u{2003}\u{3000}"), "");
}

#[test]
fn trim_handles_text_beyond_ascii() {
    assert_eq!(trim("\u{a0}h\u{e9}llo w\u{f6}rld\u{2028}"), "h\u{e9}llo w\u{f6}rld");
    assert_eq!(trim(" \u{1f600} "), "\u{1f600}");
    assert_eq!(trim("\u{200b}x\u{200b}"), "\u{200b}x\u{200b}");
}

#[test]
fn trim_agrees_with_std_on_many_strings() {
    let alphabet = [' ', '\n', 'a', '\u{3000}', '\u{e9}', '\t'];
    let mut count = 0;
    for a in alphabet {
        for b in alphabet {
            for c in alphabet {
                for d in alphabet {
                    let text: String = [a, b, c, d].iter().collect();
                    assert_eq!(trim(&text), text.trim(), "{:?}", text);
                    count += 1;
                }
            }
        }
    }
    assert_eq!(count, 1296);
}

#[test]
fn from_line_takes_nothing_read_for_the_end_of_the_stream() {
    assert!(matches!(Message::from_line(""), Err(ConnectionError::Eof)));
}

#[test]
fn from_line_strips_the_terminator() {
    let message = Message::from_line("hello\n").ok().unwrap();
    assert_eq!(message.content, "hello");
    let message = Message::from_line("hello there\r\n").ok().unwrap();
    assert_eq!(message.content, "hello there");
    let message = Message::from_line("no terminator").ok().unwrap();
    assert_eq!(message.content, "no terminator");
}

#[test]
fn from_line_gives_an_empty_message_for_a_blank_line() {
    let message = Message::from_line("\n").ok().unwrap();
    assert_eq!(message.content, "");
    assert!(message.is_empty());
    let message = Message::from_line("   \t \r\n").ok().unwrap();
    assert!(message.is_empty());
}

#[test]
fn message_text_and_emptiness() {
    let message = Message { content: "hi".to_string() };
    assert_eq!(message.to_string(), "hi");
    assert!(!message.is_empty());
    assert_eq!(message.clone(), message);
    assert!(Message { content: String::new() }.is_empty());
    assert!(!Message { content: " ".to_string() }.is_empty());
}

#[test]
fn io_error_becomes_connection_error() {
    let err = std::io::Error::new(std::io::ErrorKind::ConnectionReset, "reset");
    match ConnectionError::from(err) {
        ConnectionError::IoError(inner) => {
            assert_eq!(inner.kind(), std::io::ErrorKind::ConnectionReset)
        }
        ConnectionError::Eof => panic!("an i/o error is not the end of the stream"),
    }
}
