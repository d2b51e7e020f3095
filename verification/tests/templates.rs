use streamfinder::templates::{since_now, sized, Results};
use streamfinder::text::{replace, str_eq, u64_to_string};
use streamfinder::twitch::Stream;

#[test]
fn numbers_render_in_decimal() {
    assert_eq!(u64_to_string(0), "0");
    assert_eq!(u64_to_string(7), "7");
    assert_eq!(u64_to_string(100), "100");
    assert_eq!(u64_to_string(1_234_567_890), "1234567890");
    assert_eq!(u64_to_string(u64::MAX), "18446744073709551615");
}

#[test]
fn replace_handles_repeats_leftmost_first() {
    assert_eq!(replace("a-b-c", "-", "+"), "a+b+c");
    assert_eq!(replace("aaa", "aa", "b"), "ba");
    assert_eq!(replace("none here", "xyz", "!"), "none here");
}

#[test]
fn sized_fills_both_placeholders() {
    assert_eq!(
        sized("https://cdn.example/{width}x{height}.jpg", 320, 180),
        "https://cdn.example/320x180.jpg"
    );
    assert_eq!(sized("plain", 1, 2), "plain");
    assert_eq!(sized("{width}{width}", 0, 9), "00");
}

#[test]
fn since_now_renders_days_hours_minutes() {
    // 1 day, 1 hour, 1 minute and 1 second ago: seconds are dropped
    assert_eq!(since_now(&Some(1_000), 1_000 + 90_061), "1 day 1 hour 1 minute");
    assert_eq!(
        since_now(&Some(0), 2 * 86_400 + 3 * 3_600 + 5 * 60),
        "2 days 3 hours 5 minutes"
    );
}

#[test]
fn since_now_keeps_the_separating_spaces_of_later_components() {
    // zero days still leaves the space before "1 hour"
    assert_eq!(since_now(&Some(0), 3_600), " 1 hour");
    assert_eq!(since_now(&Some(0), 60), " 1 minute");
    assert_eq!(since_now(&Some(0), 86_400), "1 day");
}

#[test]
fn since_now_is_empty_without_a_start_or_in_the_future() {
    assert_eq!(since_now(&None, 1_000), "");
    assert_eq!(since_now(&Some(500), 500), "");
    assert_eq!(since_now(&Some(2_000), 1_000), "");
    // under a minute: every component is zero
    assert_eq!(since_now(&Some(0), 59), "");
}

#[test]
fn results_constructors_set_the_error_flag() {
    let ok = Results::new(vec!["art".to_string()], Vec::<Stream>::new());
    assert!(!ok.error);
    assert_eq!(ok.query_words, vec!["art"]);
    assert!(ok.streams.is_empty());

    let failed = Results::error();
    assert!(failed.error);
    assert!(failed.query_words.is_empty());
    assert!(failed.streams.is_empty());
}

#[test]
fn str_eq_compares_by_characters() {
    assert!(str_eq("abc", "abc"));
    assert!(!str_eq("abc", "abd"));
    assert!(!str_eq("abc", "abcd"));
    assert!(str_eq("", ""));
}
