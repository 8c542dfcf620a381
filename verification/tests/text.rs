use bar_minimal_tools::text::{
    char_to_digit, digit_to_char, find_text, from_chars, matches_at, parse_u64, push_decimal,
    push_signed_decimal, str_contains, str_ends_with, str_eq, to_chars,
};

fn chars(s: &str) -> Vec<char> {
    s.chars().collect()
}

fn decimal(v: u64) -> String {
    let mut s = String::new();
    push_decimal(&mut s, v);
    s
}

fn signed(v: i64) -> String {
    let mut s = String::from("=");
    push_signed_decimal(&mut s, v);
    s
}

#[test]
fn numbers_are_written_in_decimal() {
    assert_eq!(decimal(0), "0");
    assert_eq!(decimal(7), "7");
    assert_eq!(decimal(10), "10");
    assert_eq!(decimal(1920), "1920");
    assert_eq!(decimal(1_000_000_007), "1000000007");
    assert_eq!(decimal(u64::MAX), "18446744073709551615");
    assert_eq!(signed(0), "=0");
    assert_eq!(signed(-1), "=-1");
    assert_eq!(signed(356), "=356");
    assert_eq!(signed(i64::MAX), "=9223372036854775807");
    assert_eq!(signed(i64::MIN), "=-9223372036854775808");
}

#[test]
fn digits_and_characters_correspond() {
    for d in 0..=9u8 {
        let c = digit_to_char(d);
        assert_eq!(c, (b'0' + d) as char);
        assert_eq!(char_to_digit(c), Some(d));
    }
    for c in ['a', '/', ':', ' ', '٣', '²'] {
        assert_eq!(char_to_digit(c), None);
    }
}

#[test]
fn text_goes_to_characters_and_back() {
    assert_eq!(to_chars("añ😀b"), vec!['a', 'ñ', '😀', 'b']);
    assert!(to_chars("").is_empty());
    assert_eq!(from_chars(&vec!['a', 'ñ', '😀', 'b']), "añ😀b");
    assert_eq!(from_chars(&vec![]), "");
}

#[test]
fn text_is_found_where_it_first_stands() {
    assert_eq!(find_text(&chars("abcabc"), &chars("bc")), Some(1));
    assert_eq!(find_text(&chars("abcabc"), &chars("abc")), Some(0));
    assert_eq!(find_text(&chars("abcabc"), &chars("cab")), Some(2));
    assert_eq!(find_text(&chars("abcabc"), &chars("abcabc")), Some(0));
    assert_eq!(find_text(&chars("abcabc"), &chars("")), Some(0));
    assert_eq!(find_text(&chars(""), &chars("")), Some(0));
    assert_eq!(find_text(&chars("abcabc"), &chars("cb")), None);
    assert_eq!(find_text(&chars("abc"), &chars("abcd")), None);
    assert_eq!(find_text(&chars(""), &chars("a")), None);
    assert_eq!(find_text(&chars("aab"), &chars("ab")), Some(1));
}

#[test]
fn matching_at_a_position() {
    assert!(matches_at(&chars("hello"), &chars("llo"), 2));
    assert!(!matches_at(&chars("hello"), &chars("llo"), 1));
    assert!(!matches_at(&chars("hello"), &chars("llo"), 3));
    assert!(matches_at(&chars("hello"), &chars(""), 5));
    assert!(!matches_at(&chars("hello"), &chars(""), 6));
    assert!(!matches_at(&chars("hello"), &chars("o"), usize::MAX));
}

#[test]
fn searching_and_comparing_text() {
    assert!(str_contains("Hyper-V Virtual", "Virtual"));
    assert!(!str_contains("Hyper-V Virtual", "virtual"));
    assert!(str_contains("x", ""));
    assert!(str_ends_with("notes-popup", "-popup"));
    assert!(str_ends_with("-popup", "-popup"));
    assert!(!str_ends_with("popup", "-popup"));
    assert!(!str_ends_with("-popup ", "-popup"));
    assert!(str_ends_with("anything", ""));
    assert!(str_eq("añ", "añ"));
    assert!(str_eq("", ""));
    assert!(!str_eq("a", "A"));
    assert!(!str_eq("a", "ab"));
    assert!(!str_eq("ab", "a"));
}

#[test]
fn unsigned_numbers_are_read_as_the_standard_library_reads_them() {
    for text in [
        "0", "7", "007", "+7", "+0", "18446744073709551615", "18446744073709551616",
        "99999999999999999999999", "", "+", "-1", "--1", "++1", "1+", " 1", "1 ", "1_000", "0x10",
        "1.5", "١٢", "a",
    ] {
        assert_eq!(parse_u64(&chars(text)), text.parse::<u64>().ok(), "{text:?}");
    }
}
