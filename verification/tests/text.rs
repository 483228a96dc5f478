use cdesktop::text::{chars_of, is_blank, is_in, is_white, lines, same, trimmed};

#[test]
fn white_space_is_that_of_unicode() {
    for u in 0..=0x10ffffu32 {
        if let Some(c) = char::from_u32(u) {
            assert_eq!(is_white(c), c.is_whitespace(), "U+{u:04X}");
        }
    }
}

#[test]
fn blank_texts_hold_nothing_but_white_space() {
    assert!(is_blank(""));
    assert!(is_blank(" \t\r\n\u{3000}\u{a0}"));
    assert!(!is_blank(" x "));
    assert!(!is_blank("\u{200b}"));
}

#[test]
fn same_compares_every_character() {
    assert!(same("", ""));
    assert!(same("häuser", "häuser"));
    assert!(!same("text", "texts"));
    assert!(!same("texts", "text"));
    assert!(!same("text", "tex7"));
}

#[test]
fn lines_are_those_of_std() {
    let samples = [
        "",
        "\n",
        "\n\n",
        "a",
        "a\n",
        "a\nb",
        "a\r\nb\r\n",
        "a\r",
        "a\r\r\nb",
        "\r\n\r",
        "a\rb\nc",
        "\r",
        "é\r\n漢",
    ];
    for raw in samples {
        let expected: Vec<String> = raw.lines().map(String::from).collect();
        assert_eq!(lines(raw), expected, "{raw:?}");
    }
}

#[test]
fn trimming_is_that_of_std() {
    for s in ["", "   ", "a", "  a b\t", "\u{a0}x\u{2003}", "x  ", "  x"] {
        assert_eq!(trimmed(&chars_of(s)), s.trim(), "{s:?}");
    }
}

#[test]
fn a_part_is_found_as_std_finds_it() {
    for part in ["", "a", "ab", "b\u{e9}", "aba", "\u{e9}"] {
        for text in ["", "a", "ab", "aab", "ab\u{e9}a", "aaba", "ba"] {
            assert_eq!(is_in(part, text), text.contains(part), "{part:?} in {text:?}");
        }
    }
}
