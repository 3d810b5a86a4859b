use manget::text::{
    concat3, contains, remove_first, split_at_char, starts_with, str_eq, to_decimal,
    to_three_digits, to_two_digits, trim_end_matches, trim_start_matches,
};

#[test]
fn equality_of_strings() {
    assert!(str_eq("", ""));
    assert!(str_eq("mangadex.org", "mangadex.org"));
    assert!(!str_eq("mangadex.org", "mangadex.orG"));
    assert!(!str_eq("a", "ab"));
    assert!(str_eq("truyện", "truyện"));
}

#[test]
fn prefixes_and_substrings() {
    assert!(starts_with("https://x", "http"));
    assert!(!starts_with("//x", "http"));
    assert!(starts_with("abc", ""));
    assert!(!starts_with("ab", "abc"));
    assert!(contains("www.nettruyenus.com", "nettruyen"));
    assert!(contains("a.png", ".png"));
    assert!(!contains("a.pn", ".png"));
    assert!(contains("abc", ""));
    assert!(contains("", ""));
    assert!(!contains("", "a"));
    assert!(contains("aab", "ab"));
}

#[test]
fn trailing_characters_go() {
    assert_eq!(trim_end_matches("name...", '.'), "name");
    assert_eq!(trim_end_matches("a.b.", '.'), "a.b");
    assert_eq!(trim_end_matches("...", '.'), "");
    assert_eq!(trim_end_matches("", '.'), "");
    assert_eq!(trim_end_matches("name", '.'), "name");
}

#[test]
fn leading_copies_go() {
    assert_eq!(trim_start_matches("- - Chapter 5", "- "), "Chapter 5");
    assert_eq!(trim_start_matches("-Chapter 5", "- "), "-Chapter 5");
    assert_eq!(trim_start_matches("> x", "> "), "x");
    assert_eq!(trim_start_matches("abc", ""), "abc");
    assert_eq!(trim_start_matches("aaa", "a"), "");
    assert_eq!(trim_start_matches("\"\"q\"", "\""), "q\"");
}

#[test]
fn first_copy_goes() {
    assert_eq!(remove_first("Nisekoi chap 229 Nisekoi", "Nisekoi"), " chap 229 Nisekoi");
    assert_eq!(remove_first("abc", "x"), "abc");
    assert_eq!(remove_first("abc", ""), "abc");
    assert_eq!(remove_first("abc", "abc"), "");
    assert_eq!(remove_first("ab", "abc"), "ab");
    assert_eq!(remove_first("xxabxx", "ab"), "xxxx");
}

#[test]
fn decimal_digits() {
    assert_eq!(to_decimal(0), "0");
    assert_eq!(to_decimal(7), "7");
    assert_eq!(to_decimal(10), "10");
    assert_eq!(to_decimal(1086), "1086");
    assert_eq!(to_decimal(usize::MAX), usize::MAX.to_string());
    assert_eq!(to_two_digits(0), "00");
    assert_eq!(to_two_digits(5), "05");
    assert_eq!(to_two_digits(12), "12");
    assert_eq!(to_two_digits(123), "123");
    assert_eq!(to_three_digits(0), "000");
    assert_eq!(to_three_digits(5), "005");
    assert_eq!(to_three_digits(42), "042");
    assert_eq!(to_three_digits(100), "100");
    assert_eq!(to_three_digits(1234), "1234");
}

#[test]
fn pieces_of_a_text() {
    assert_eq!(split_at_char("a,b,c", ','), vec!["a", "b", "c"]);
    assert_eq!(split_at_char("a,,c,", ','), vec!["a", "", "c", ""]);
    assert_eq!(split_at_char("", ','), vec![""]);
    assert_eq!(split_at_char(",", ','), vec!["", ""]);
    assert_eq!(split_at_char("abc", ','), vec!["abc"]);
}

#[test]
fn concatenation() {
    assert_eq!(manget::text::concat("ab", "cd"), "abcd");
    assert_eq!(concat3("a", "", "c"), "ac");
}
