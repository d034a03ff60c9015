use backbone_events::text::{decimal_text, join_texts, signed_decimal_text, sort_texts, trim_str};

fn s(v: Vec<char>) -> String {
    v.into_iter().collect()
}

#[test]
fn trim_drops_unicode_white_space() {
    assert_eq!(s(trim_str("  a b \t\n")), "a b");
    assert_eq!(s(trim_str("\u{3000}x\u{a0}")), "x");
    assert_eq!(s(trim_str("   ")), "");
}

#[test]
fn decimal_texts() {
    assert_eq!(s(decimal_text(0)), "0");
    assert_eq!(s(decimal_text(4)), "4");
    assert_eq!(s(decimal_text(1234567890)), "1234567890");
    assert_eq!(s(decimal_text(u64::MAX as u128)), "18446744073709551615");
    assert_eq!(s(signed_decimal_text(-42)), "-42");
    assert_eq!(s(signed_decimal_text(i64::MIN)), "-9223372036854775808");
}

#[test]
fn sort_and_join_texts() {
    let input: Vec<Vec<char>> = ["b", "a", "ab", ""].iter().map(|t| t.chars().collect()).collect();
    let sorted: Vec<String> = sort_texts(&input).into_iter().map(s).collect();
    assert_eq!(sorted, vec!["", "a", "ab", "b"]);
    let parts: Vec<Vec<char>> = ["x", "y"].iter().map(|t| t.chars().collect()).collect();
    assert_eq!(s(join_texts(&parts, ", ")), "x, y");
}
