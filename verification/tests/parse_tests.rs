use cgman::parse::{line_to_vec, lines_to_map};
use cgman::strutil::{find_sep, parse_u64, split_char, str_eq, trim_str, u64_to_string};

#[test]
fn line_to_vec_plain() {
    assert_eq!(line_to_vec("1 2 3"), vec![1, 2, 3]);
}

#[test]
fn line_to_vec_skips_bad_tokens() {
    assert_eq!(line_to_vec("10  x 20 -3 30"), vec![10, 20, 30]);
}

#[test]
fn line_to_vec_empty() {
    assert_eq!(line_to_vec(""), Vec::<u64>::new());
    assert_eq!(line_to_vec("   "), Vec::<u64>::new());
}

#[test]
fn line_to_vec_trims_tokens() {
    assert_eq!(line_to_vec("7\t 8\n"), vec![7, 8]);
}

#[test]
fn lines_to_map_plain() {
    let m = lines_to_map("nr_periods 4\nnr_throttled 1\nthrottled_time 100\n");
    assert_eq!(m.get("nr_periods"), Some(&4));
    assert_eq!(m.get("nr_throttled"), Some(&1));
    assert_eq!(m.get("throttled_time"), Some(&100));
    assert_eq!(m.get("absent"), None);
}

#[test]
fn lines_to_map_skips_malformed() {
    let m = lines_to_map("a 1\nb\nc 2 3\nd x\ne 5");
    assert_eq!(m.get("a"), Some(&1));
    assert_eq!(m.get("b"), None);
    assert_eq!(m.get("c"), None);
    assert_eq!(m.get("d"), None);
    assert_eq!(m.get("e"), Some(&5));
}

#[test]
fn lines_to_map_last_entry_wins() {
    let m = lines_to_map("k 1\nk 2");
    assert_eq!(m.get("k"), Some(&2));
}

#[test]
fn parse_u64_accepts_what_std_does() {
    assert_eq!(parse_u64("0"), Some(0));
    assert_eq!(parse_u64("007"), Some(7));
    assert_eq!(parse_u64("+42"), Some(42));
    assert_eq!(parse_u64("18446744073709551615"), Some(u64::MAX));
    assert_eq!(parse_u64("18446744073709551616"), None);
    assert_eq!(parse_u64(""), None);
    assert_eq!(parse_u64("+"), None);
    assert_eq!(parse_u64("-1"), None);
    assert_eq!(parse_u64("1x"), None);
    assert_eq!(parse_u64(" 1"), None);
}

#[test]
fn trim_removes_surrounding_whitespace() {
    assert_eq!(trim_str("  a b \t\n"), "a b");
    assert_eq!(trim_str(""), "");
    assert_eq!(trim_str(" \t "), "");
    assert_eq!(trim_str("x"), "x");
}

#[test]
fn split_matches_std_split() {
    let parts = split_char("a:b::c:", ':');
    assert_eq!(parts, vec!["a", "b", "", "c", ""]);
    assert_eq!(split_char("", ':'), vec![""]);
}

#[test]
fn str_eq_compares_contents() {
    assert!(str_eq("abc", "abc"));
    assert!(!str_eq("abc", "abd"));
    assert!(!str_eq("abc", "ab"));
    assert!(str_eq("", ""));
}

#[test]
fn u64_to_string_renders_decimal() {
    assert_eq!(u64_to_string(0), "0");
    assert_eq!(u64_to_string(7), "7");
    assert_eq!(u64_to_string(1024), "1024");
    assert_eq!(u64_to_string(u64::MAX), "18446744073709551615");
}

#[test]
fn find_sep_locates_first_separator() {
    assert_eq!(find_sep("ab - cd - ef", 0), Some(2));
    assert_eq!(find_sep("ab - cd - ef", 3), Some(7));
    assert_eq!(find_sep("abcd", 0), None);
    assert_eq!(find_sep(" - ", 0), Some(0));
}

#[test]
fn decimal_roundtrip() {
    for x in [0u64, 1, 9, 10, 99, 12345, u64::MAX] {
        assert_eq!(parse_u64(&u64_to_string(x)), Some(x));
    }
}
