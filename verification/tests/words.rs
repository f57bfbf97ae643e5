use grisui::words::{chars_of, first_line, is_whitespace, split_whitespace, string_of};

#[test]
fn split_whitespace_like_std() {
    let samples = ["", "   ", "a", " a  bc\td\n e ", "x\u{3000}y\u{a0}z", "M 1 2\nL 3 4\r\nZ"];
    for s in samples {
        let expected: Vec<String> = s.split_whitespace().map(|w| w.to_string()).collect();
        assert_eq!(split_whitespace(s), expected);
    }
}

#[test]
fn split_whitespace_words_have_no_whitespace() {
    for w in split_whitespace(" one\ttwo  three\n") {
        assert!(!w.is_empty());
        assert!(!w.chars().any(char::is_whitespace));
    }
}

#[test]
fn is_whitespace_matches_char() {
    for c in ['a', ' ', '\t', '\n', '\r', '\u{b}', '\u{c}', '\u{85}', '\u{a0}', '\u{1680}',
              '\u{2000}', '\u{200a}', '\u{200b}', '\u{2028}', '\u{2029}', '\u{202f}', '\u{205f}',
              '\u{3000}', '\u{feff}', 'é'] {
        assert_eq!(is_whitespace(c), c.is_whitespace(), "{:?}", c);
    }
}

#[test]
fn first_line_like_lines_next() {
    let samples = ["", "\n", "abc", "abc\ndef", "abc\r\ndef", "abc\r", "\r\n", "a\rb\nc"];
    for s in samples {
        assert_eq!(first_line(s), s.lines().next().map(|l| l.to_string()), "{:?}", s);
    }
}

#[test]
fn chars_and_string_round_trip() {
    let s = "hé ho";
    let cs = chars_of(s);
    assert_eq!(cs, vec!['h', 'é', ' ', 'h', 'o']);
    assert_eq!(string_of(&cs), s);
}
