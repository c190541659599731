use responses_proxy::text::{add_line, decimal_text, is_blank, join_lines, same_text};

#[test]
fn blank_is_what_trimming_leaves_nothing_of() {
    for text in ["", " ", "\t\n\u{b}\u{c}\r ", "\u{85}", "\u{a0}\u{1680}\u{2000}\u{200a}", "\u{2028}\u{2029}\u{202f}\u{205f}\u{3000}"] {
        assert!(is_blank(text));
        assert!(text.trim().is_empty());
    }
    for text in ["a", " a ", "\u{200b}", "\u{180e}", "\u{feff}", "\u{8}", "\u{1c}", "."] {
        assert!(!is_blank(text));
    }
}

#[test]
fn white_space_is_as_listed() {
    let listed = |c: char| {
        let code = c as u32;
        (0x9..=0xd).contains(&code)
            || (0x2000..=0x200a).contains(&code)
            || [0x20, 0x85, 0xa0, 0x1680, 0x2028, 0x2029, 0x202f, 0x205f, 0x3000].contains(&code)
    };
    for code in 0..=0x10ffffu32 {
        if let Some(c) = char::from_u32(code) {
            assert_eq!(is_blank(c.to_string().as_str()), listed(c));
        }
    }
}

#[test]
fn lines_are_joined() {
    let lines = |texts: &[&str]| texts.iter().map(|t| t.to_string()).collect::<Vec<_>>();
    for texts in [&[][..], &["a"], &["a", "b"], &["", "b", ""], &["", ""]] {
        assert_eq!(join_lines(&lines(texts)), texts.join("\n"));
    }
}

#[test]
fn an_empty_text_takes_up_no_line() {
    let mut text = String::new();
    add_line(&mut text, "");
    add_line(&mut text, "a");
    add_line(&mut text, "");
    add_line(&mut text, "b");
    assert_eq!(text, "a\n\nb");
}

#[test]
fn numbers_are_written_in_decimal() {
    for n in [0, 1, 9, 10, 11, 99, 100, 101, 1234567890, usize::MAX] {
        assert_eq!(decimal_text(n), n.to_string());
    }
}

#[test]
fn texts_are_compared_as_they_are() {
    assert!(same_text("", ""));
    assert!(same_text("tool", "tool"));
    assert!(!same_text("tool", "Tool"));
    assert!(!same_text("tool", "tool "));
    assert!(!same_text("\u{e9}", "e\u{301}"));
}
