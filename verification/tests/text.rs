use hwinfo::decimal::{decimal, parse_u64, parse_u64_or_zero};
use hwinfo::text::{
    char_is_whitespace, chars_of, contains, ends_with, equal, find_char, join_from,
    second_field_of, split_lines, split_words, starts_with, strip_prefix, strip_suffix, trim,
    trim_end, trim_end_matches, trim_start,
};

fn chars(s: &str) -> Vec<char> {
    s.chars().collect()
}

fn text(c: &[char]) -> String {
    c.iter().collect()
}

fn rows(s: &[&str]) -> Vec<Vec<char>> {
    s.iter().map(|r| chars(r)).collect()
}

#[test]
fn characters_of_a_text() {
    assert_eq!(chars_of("a\u{e9}\u{1f600}b"), vec!['a', '\u{e9}', '\u{1f600}', 'b']);
    assert_eq!(chars_of(""), Vec::<char>::new());
}

#[test]
fn white_space_is_what_the_standard_library_takes_for_it() {
    let mut code: u32 = 0;
    while code <= 0x10ffff {
        if let Some(c) = char::from_u32(code) {
            assert_eq!(char_is_whitespace(c), c.is_whitespace(), "U+{:04X}", code);
        }
        code += 1;
    }
}

#[test]
fn trimming() {
    for s in ["", " ", "a", "  a b \t\n", "\u{a0}x\u{2028}", "x  ", "  x", " \u{feff} "] {
        assert_eq!(text(trim(&chars(s))), s.trim(), "{:?}", s);
        assert_eq!(text(trim_start(&chars(s))), s.trim_start(), "{:?}", s);
        assert_eq!(text(trim_end(&chars(s))), s.trim_end(), "{:?}", s);
    }
}

#[test]
fn trimming_a_run_at_the_end() {
    for s in ["", ":", "001:", "001::", "0:1", ":::"] {
        assert_eq!(text(trim_end_matches(&chars(s), ':')), s.trim_end_matches(':'), "{:?}", s);
    }
}

#[test]
fn lines_are_those_of_the_standard_library() {
    for s in [
        "",
        "\n",
        "a",
        "a\n",
        "a\nb",
        "a\r\nb\r\n",
        "a\r",
        "a\r\n\r\n",
        "\r\n",
        "\r",
        "a\rb\n",
        "\n\na\n\n",
        "a\r\r\n",
    ] {
        let expected: Vec<Vec<char>> = s.lines().map(|l| chars(l)).collect();
        assert_eq!(split_lines(&chars(s)), expected, "{:?}", s);
    }
}

#[test]
fn words_are_those_of_the_standard_library() {
    for s in ["", " ", "a", " a  b\tc\n", "a\u{a0}b", "  x", "x  ", "Bus 002 Device 001: ID"] {
        let expected: Vec<Vec<char>> = s.split_whitespace().map(|l| chars(l)).collect();
        assert_eq!(split_words(&chars(s)), expected, "{:?}", s);
    }
}

#[test]
fn joining() {
    let parts = rows(&["a", "", "bc", "d"]);
    assert_eq!(text(&join_from(&parts, 0, &chars(" "))), "a  bc d");
    assert_eq!(text(&join_from(&parts, 2, &chars(", "))), "bc, d");
    assert_eq!(text(&join_from(&parts, 3, &chars(" "))), "d");
    assert_eq!(text(&join_from(&parts, 4, &chars(" "))), "");
}

#[test]
fn numbers_are_read_as_the_standard_library_reads_them() {
    for s in [
        "",
        "0",
        "7",
        "007",
        "+",
        "+5",
        "++5",
        "-5",
        "-0",
        "5+",
        " 5",
        "5 ",
        "1_000",
        "12a",
        "a12",
        "18446744073709551615",
        "18446744073709551616",
        "+18446744073709551615",
        "99999999999999999999999999",
        "٣",
        "1.0",
        "0x10",
    ] {
        assert_eq!(parse_u64(&chars(s)), s.parse::<u64>().ok(), "{:?}", s);
        assert_eq!(parse_u64_or_zero(&chars(s)), s.parse::<u64>().unwrap_or(0), "{:?}", s);
    }
}

#[test]
fn numbers_are_written_in_decimal() {
    for n in [0u64, 1, 9, 10, 11, 99, 100, 101, 65535, 1234567890, u64::MAX] {
        assert_eq!(decimal(n), n.to_string());
        assert_eq!(parse_u64(&chars(&decimal(n))), Some(n));
    }
}

#[test]
fn prefixes_and_suffixes() {
    let cases = [("", ""), ("abc", ""), ("abc", "a"), ("abc", "abc"), ("abc", "abcd"), ("abc", "bc"), ("abc", "c"), ("ab", "b"), ("aXb", "ab")];
    for (s, p) in cases {
        assert_eq!(starts_with(&chars(s), &chars(p)), s.starts_with(p), "{:?} {:?}", s, p);
        assert_eq!(ends_with(&chars(s), &chars(p)), s.ends_with(p), "{:?} {:?}", s, p);
        assert_eq!(
            strip_prefix(&chars(s), &chars(p)).map(text),
            s.strip_prefix(p).map(|r| r.to_string())
        );
        assert_eq!(
            strip_suffix(&chars(s), &chars(p)).map(text),
            s.strip_suffix(p).map(|r| r.to_string())
        );
        assert_eq!(equal(&chars(s), &chars(p)), s == p);
    }
}

#[test]
fn containment() {
    let cases = [("", ""), ("abc", ""), ("", "a"), ("abc", "bc"), ("abc", "ac"), ("aab", "ab"), ("abab", "bab"), ("ab", "abc"), ("VGA compatible", "VGA"), ("xx3D", "3D")];
    for (s, p) in cases {
        assert_eq!(contains(&chars(s), &chars(p)), s.contains(p), "{:?} {:?}", s, p);
    }
}

#[test]
fn first_position_of_a_character() {
    assert_eq!(find_char(&chars("a:b:c"), ':'), 1);
    assert_eq!(find_char(&chars(":"), ':'), 0);
    assert_eq!(find_char(&chars("abc"), ':'), 3);
    assert_eq!(find_char(&chars(""), ':'), 0);
}

#[test]
fn second_field() {
    for s in ["", "a", "a:", "a:b", "a:b:c", ":b:", "::", "a:b:c:d:e"] {
        let expected = s.split(':').nth(1).map(|f| f.to_string());
        assert_eq!(second_field_of(&chars(s), ':').map(text), expected, "{:?}", s);
        let mut parts = s.splitn(4, ':');
        parts.next();
        assert_eq!(second_field_of(&chars(s), ':').map(text), parts.next().map(|f| f.to_string()));
    }
}
