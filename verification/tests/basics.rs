//! Text and time helpers.

use bge_router::text::{
    chars_of, cut_at, has_prefix, has_text, join, parse_number, text_eq, to_decimal, NumberFault,
};
use bge_router::time::{ms, Duration};

#[test]
fn text_is_compared_and_joined() {
    assert!(text_eq("żaba", "żaba"));
    assert!(!text_eq("żaba", "zaba"));
    assert_eq!(join("żół", "w"), "żółw");
    assert_eq!(chars_of("aż"), ['a', 'ż']);
}

#[test]
fn prefixes_and_parts_are_found() {
    assert!(has_prefix("/v1/x", "/v1/"));
    assert!(!has_prefix("/v1", "/v1/"));
    assert!(has_prefix("x", ""));
    assert!(has_text("abcabd", "abd"));
    assert!(has_text("abc", ""));
    assert!(!has_text("ab", "abc"));
    assert!(!has_text("aab", "ba"));
}

#[test]
fn text_is_cut_at_the_first_mark() {
    assert_eq!(cut_at("a?b?c", '?'), "a");
    assert_eq!(cut_at("?b", '?'), "");
    assert_eq!(cut_at("żół", '?'), "żół");
    assert_eq!(cut_at("żó?ł", '?'), "żó");
}

#[test]
fn numbers_are_written_and_read() {
    for n in [0, 9, 10, 8081, u64::MAX] {
        assert_eq!(to_decimal(n), n.to_string());
        assert_eq!(parse_number(&to_decimal(n)), Ok(n));
    }
    for text in ["+7", "0000000000000000000000012", "18446744073709551615"] {
        assert_eq!(parse_number(text).ok(), text.parse::<u64>().ok(), "{text}");
    }
}

#[test]
fn number_faults_are_those_of_std() {
    let bad = [
        "",
        "+",
        "-",
        "-0",
        "1 ",
        "٣",
        "0x1",
        "++1",
        "18446744073709551616",
        "99999999999999999999",
        "18446744073709551616x",
        "1844674407370955161x",
        "184467440737095516160x",
        "x18446744073709551616",
    ];
    for text in bad {
        let std = text.parse::<u64>().unwrap_err().to_string();
        assert_eq!(parse_number(text).unwrap_err().as_str(), std, "{text}");
    }
    assert_eq!(parse_number(""), Err(NumberFault::Empty));
    assert_eq!(parse_number("1x"), Err(NumberFault::InvalidDigit));
    assert_eq!(
        parse_number("18446744073709551616x"),
        Err(NumberFault::TooLarge)
    );
}

#[test]
fn durations_count_like_those_of_std() {
    let own = Duration::from_millis(2_750);
    let std = std::time::Duration::from_millis(2_750);
    assert_eq!(own.as_secs(), std.as_secs());
    assert_eq!(own.subsec_nanos(), std.subsec_nanos());
    assert_eq!(own.as_millis(), std.as_millis());
    assert_eq!(Duration::from_secs(2), Duration::from_millis(2_000));
    assert!(Duration::zero().is_zero());
    assert!(!own.is_zero());
    assert_eq!(own.saturating_double(), Duration::from_millis(5_500));
    assert_eq!(own.shorter(Duration::zero()), Duration::zero());
    assert_eq!(own.longer(Duration::zero()), own);
}

#[test]
fn milliseconds_are_clamped() {
    assert_eq!(ms(Duration::from_millis(1_500)), 1_500);
    assert_eq!(ms(Duration::from_secs(u64::MAX)), u64::MAX);
}

#[test]
fn doubling_saturates_at_the_longest_span() {
    let longest = Duration::from_secs(u64::MAX).saturating_double();
    assert_eq!(longest.as_secs(), u64::MAX);
    assert_eq!(longest.subsec_nanos(), 999_999_999);
    assert_eq!(longest.saturating_double(), longest);
}
