use qingjian_windows::strings::{eq_ignore_ascii_case, is_whitespace, str_equal, trim};
use qingjian_windows::text::{decimal_string, group_digits, hanzi_text, HanziText};

#[test]
fn thousands_separators() {
    assert_eq!(group_digits(0), "0");
    assert_eq!(group_digits(999), "999");
    assert_eq!(group_digits(1000), "1,000");
    assert_eq!(group_digits(1234567), "1,234,567");
    assert_eq!(group_digits(100200), "100,200");
    assert_eq!(group_digits(u64::MAX), "18,446,744,073,709,551,615");
    assert_eq!(decimal_string(90817), "90817");
}

#[test]
fn groups_are_three_digits_after_the_first() {
    for value in [0u64, 7, 42, 999, 1000, 12345, 999_999, 1_000_000, 98_765_432_101, u64::MAX] {
        let text = group_digits(value);
        let groups: Vec<&str> = text.split(',').collect();
        assert!((1..=3).contains(&groups[0].len()), "{text}");
        assert!(groups[1..].iter().all(|group| group.len() == 3), "{text}");
        assert_eq!(text.replace(',', ""), value.to_string());
    }
}

#[test]
fn hanzi_units() {
    assert!(matches!(hanzi_text(9999), HanziText::Whole(ref t) if t == "9,999 字"));
    assert!(matches!(hanzi_text(0), HanziText::Whole(ref t) if t == "0 字"));
    assert!(matches!(hanzi_text(10_000), HanziText::Wan(10_000)));
    assert!(matches!(hanzi_text(99_999_999), HanziText::Wan(99_999_999)));
    assert!(matches!(hanzi_text(100_000_000), HanziText::Yi(100_000_000)));
}

#[test]
fn string_helpers() {
    assert!(str_equal("字在", "字在"));
    assert!(!str_equal("字在", "字"));
    assert!(eq_ignore_ascii_case("Segoe UI", "segoe ui"));
    assert!(!eq_ignore_ascii_case("Ä", "ä"));
    assert_eq!(trim("\u{3000} Arial\t\n"), "Arial");
    assert_eq!(trim("   "), "");
    assert_eq!(trim("a b"), "a b");
    assert!(is_whitespace('\u{85}'));
    assert!(!is_whitespace('x'));
}
