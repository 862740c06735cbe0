use devin::text::{equal, is_space, split_whitespace, substring, to_chars, to_decimal, trim_bounds};

#[test]
fn whitespace_is_what_the_standard_library_calls_whitespace() {
    for code in 0u32..=0x10FFFF {
        if let Some(c) = char::from_u32(code) {
            assert_eq!(is_space(c), c.is_whitespace(), "U+{:04X}", code);
        }
    }
}

#[test]
fn whitespace_examples() {
    assert!(is_space(' '));
    assert!(is_space('\t'));
    assert!(is_space('\n'));
    assert!(is_space('\u{a0}'));
    assert!(is_space('\u{3000}'));
    assert!(!is_space('a'));
    assert!(!is_space('/'));
    assert!(!is_space('\u{200b}'));
}

#[test]
fn to_chars_keeps_every_character() {
    assert_eq!(to_chars(""), Vec::<char>::new());
    assert_eq!(to_chars("a\u{e9}\u{1f600}"), vec!['a', '\u{e9}', '\u{1f600}']);
}

fn trimmed(line: &str) -> String {
    let chars = to_chars(line);
    let (start, end) = trim_bounds(&chars);
    substring(line, start, end)
}

#[test]
fn trim_bounds_agree_with_the_standard_library() {
    let samples = [
        "",
        " ",
        "hello",
        "  hello  ",
        "\thello world\n",
        "\u{3000}h\u{e9}llo\u{a0}",
        " a ",
        "a  b",
        " \u{1f600} ",
        "\r\n",
    ];
    for line in samples {
        assert_eq!(trimmed(line), line.trim(), "{:?}", line);
    }
}

#[test]
fn trim_bounds_of_blank_text_are_empty() {
    let chars = to_chars("   ");
    let (start, end) = trim_bounds(&chars);
    assert_eq!(start, end);
}

#[test]
fn split_whitespace_agrees_with_the_standard_library() {
    let samples = [
        "",
        "   ",
        "one",
        "one two",
        "  one   two\tthree\n",
        "/connect  S1\u{3000}S2",
        "h\u{e9} \u{1f600}\u{a0}x",
    ];
    for line in samples {
        let expected: Vec<String> = line.split_whitespace().map(|word| word.to_string()).collect();
        assert_eq!(split_whitespace(line), expected, "{:?}", line);
    }
}

#[test]
fn split_whitespace_keeps_the_order() {
    assert_eq!(split_whitespace(" c  a b "), vec!["c", "a", "b"]);
}

#[test]
fn substring_counts_characters() {
    assert_eq!(substring("h\u{e9}llo", 1, 3), "\u{e9}l");
    assert_eq!(substring("abc", 0, 0), "");
    assert_eq!(substring("abc", 0, 3), "abc");
}

#[test]
fn equal_compares_character_by_character() {
    assert!(equal("", ""));
    assert!(equal("/quit", "/quit"));
    assert!(!equal("/quit", "/Quit"));
    assert!(!equal("/quit", "/qui"));
    assert!(!equal("/qui", "/quit"));
}

#[test]
fn decimal_numerals() {
    assert_eq!(to_decimal(0), "0");
    assert_eq!(to_decimal(7), "7");
    assert_eq!(to_decimal(10), "10");
    assert_eq!(to_decimal(100), "100");
    assert_eq!(to_decimal(4_294_967_295), "4294967295");
    for n in [1u32, 9, 11, 99, 101, 12345, 1_000_000] {
        assert_eq!(to_decimal(n), n.to_string());
    }
}
