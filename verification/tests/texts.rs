use astralink::text::{
    chars_of, contains, find, identifier_prefix, is_blank, number_string, parse_number, same,
    same_ignoring_ascii_case, split_at_char, split_char, split_lines, split_whitespace,
    starts_with, string_of, trim,
};

#[test]
fn texts_are_searched() {
    assert_eq!(find("abcabc", "ca"), Some(2));
    assert_eq!(find("abc", ""), Some(0));
    assert_eq!(find("", "a"), None);
    assert_eq!(find("\u{e9}a\u{e9}b", "\u{e9}b"), Some(2));
    assert!(contains("hello", "ell"));
    assert!(!contains("hello", "elo"));
    assert!(starts_with("hello", "he"));
    assert!(!starts_with("he", "hello"));
}

#[test]
fn trimming_is_idempotent() {
    for s in ["", "  ", " a b ", "\t\u{2003}x\n", "x"] {
        assert_eq!(trim(s), s.trim());
        assert_eq!(trim(&trim(s)), trim(s));
        assert_eq!(is_blank(s), s.trim().is_empty());
    }
}

#[test]
fn white_space_is_what_unicode_says() {
    let mut found: Vec<u32> = Vec::new();
    for n in 0..0x11_0000u32 {
        if let Some(c) = char::from_u32(n) {
            if c.is_whitespace() {
                found.push(n);
            }
        }
    }
    let mut want: Vec<u32> = (0x9..=0xd).collect();
    want.extend([0x20, 0x85, 0xa0, 0x1680]);
    want.extend(0x2000..=0x200a);
    want.extend([0x2028, 0x2029, 0x202f, 0x205f, 0x3000]);
    assert_eq!(found, want);
}

#[test]
fn lower_case_of_ascii_is_ascii_lower_case() {
    let all: String = (0u8..128).map(char::from).collect();
    assert_eq!(all.to_lowercase(), all.to_ascii_lowercase());
}

#[test]
fn ascii_letters_and_digits_are_alphanumeric() {
    for c in (0u8..128).map(char::from) {
        assert_eq!(c.is_alphanumeric(), c.is_ascii_alphanumeric());
    }
}

#[test]
fn trimming_keeps_the_words() {
    for s in ["", "  ", " a  b ", "\u{3000}x y\n"] {
        assert_eq!(split_whitespace(&trim(s)), split_whitespace(s));
    }
}

#[test]
fn texts_are_split() {
    for s in ["", "a", "a,b", ",a,,b,", ","] {
        let want: Vec<String> = s.split(',').map(|p| p.to_string()).collect();
        assert_eq!(split_char(s, ','), want);
    }
    for s in ["", "  ", " a  b\tc ", "a\u{2003}b"] {
        let want: Vec<String> = s.split_whitespace().map(|p| p.to_string()).collect();
        assert_eq!(split_whitespace(s), want);
    }
    for s in ["", "\n", "a\nb", "a\r\nb\r", "a\n\nb\n", "\r\n"] {
        let want: Vec<String> = s.lines().map(|p| p.to_string()).collect();
        assert_eq!(split_lines(s), want);
    }
    assert_eq!(split_at_char("a/b/c", '/'), Some(("a".to_string(), "b/c".to_string())));
    assert_eq!(split_at_char("abc", '/'), None);
    assert_eq!(identifier_prefix("ab&c?d/e"), "ab");
    assert_eq!(identifier_prefix("abc"), "abc");
}

#[test]
fn numbers_are_read_as_the_parser_reads_them() {
    for s in ["0", "255", "256", "+7", "-7", "", "+", "007", "1 ", "1a", "99999999999999999999"] {
        assert_eq!(parse_number(s, 255), s.parse::<u8>().ok().map(u64::from));
        assert_eq!(parse_number(s, u64::MAX), s.parse::<u64>().ok());
    }
}

#[test]
fn written_numbers_are_read_back() {
    for n in [0u32, 7, 10, 123, 4_294_967_295] {
        assert_eq!(number_string(n), n.to_string());
        assert_eq!(parse_number(&number_string(n), u64::MAX), Some(u64::from(n)));
    }
}

#[test]
fn texts_are_compared() {
    assert!(same("abc", "abc"));
    assert!(!same("abc", "abd"));
    assert!(!same("abc", "ab"));
    assert!(same_ignoring_ascii_case("TrUe", "true"));
    assert!(!same_ignoring_ascii_case("\u{c9}", "\u{e9}"));
    assert!(!same_ignoring_ascii_case("tru", "true"));
}

#[test]
fn characters_make_a_text_again() {
    let chars = chars_of("h\u{e9}llo");
    assert_eq!(chars.len(), 5);
    assert_eq!(string_of(&chars), "h\u{e9}llo");
}
