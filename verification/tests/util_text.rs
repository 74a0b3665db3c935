use cmdbot::duration::as_text;
use cmdbot::text::{singular_or_plural, singular_or_plural_u64, strip_str, u64_to_string, lower_str, sort_strings, join_with_sep};
use cmdbot::wind::get_wind_direction;

#[test]
fn strip_long_string_gets_ellipsis() {
    let s = "abcdefghijklmnopqrst"; // 20 characters
    let r = strip_str(s, 10, true).unwrap();
    assert_eq!(r.len(), 10);
    assert!(r.ends_with("..."));
    assert_eq!(r, "abcdefg...");
}

#[test]
fn strip_short_string_unchanged() {
    let r = strip_str("abcde", 10, true).unwrap();
    assert_eq!(r, "abcde");
}

#[test]
fn strip_tiny_limit_gives_nothing() {
    assert!(strip_str("abcdefgh", 3, true).is_none());
}

#[test]
fn strip_without_ellipsis_cuts_plainly() {
    assert_eq!(strip_str("abcdefgh", 3, false), Some("abc".to_string()));
    assert_eq!(strip_str("ab", 3, false), Some("ab".to_string()));
}

#[test]
fn strip_exact_fit_unchanged() {
    assert_eq!(strip_str("abcdefghij", 10, true), Some("abcdefghij".to_string()));
}

#[test]
fn plural_forms() {
    assert_eq!(singular_or_plural("day", 1), "day");
    assert_eq!(singular_or_plural("day", 2), "days");
    assert_eq!(singular_or_plural("day", 0), "days");
    assert_eq!(singular_or_plural("day", -1), "days");
    assert_eq!(singular_or_plural_u64("hour", 1), "hour");
    assert_eq!(singular_or_plural_u64("hour", 5), "hours");
}

#[test]
fn duration_zero() {
    assert_eq!(as_text(0), "0 seconds");
}

#[test]
fn duration_one_second() {
    assert_eq!(as_text(1000), "1 second");
}

#[test]
fn duration_minute_and_second() {
    assert_eq!(as_text(61000), "1 minute and 1 second");
}

#[test]
fn duration_four_components() {
    // 1 day, 1 hour, 1 minute, 1 second
    assert_eq!(as_text(90061000), "1 day, 1 hour, 1 minute, and 1 second");
}

#[test]
fn duration_sub_second_rounds_down() {
    assert_eq!(as_text(999), "0 seconds");
}

#[test]
fn duration_two_components_skipping_middle() {
    // 1 day and 5 seconds: hours and minutes are zero
    assert_eq!(as_text(86_405_000), "1 day and 5 seconds");
}

#[test]
fn duration_plural_components() {
    // 2 days, 3 hours, 10 minutes, and 30 seconds
    let ms = (((2 * 24 + 3) * 60 + 10) * 60 + 30) * 1000;
    assert_eq!(as_text(ms), "2 days, 3 hours, 10 minutes, and 30 seconds");
}

#[test]
fn wind_sector_table() {
    assert_eq!(get_wind_direction(0), Some("North".to_string()));
    assert_eq!(get_wind_direction(45), Some("Northeast".to_string()));
    assert_eq!(get_wind_direction(90), Some("East".to_string()));
    assert_eq!(get_wind_direction(130), Some("Southeast".to_string()));
    assert_eq!(get_wind_direction(181), Some("South".to_string()));
    assert_eq!(get_wind_direction(220), Some("Southwest".to_string()));
    assert_eq!(get_wind_direction(270), Some("West".to_string()));
    assert_eq!(get_wind_direction(300), Some("Northwest".to_string()));
    assert_eq!(get_wind_direction(350), Some("North".to_string()));
    assert_eq!(get_wind_direction(360), Some("North".to_string()));
}

#[test]
fn wind_out_of_range() {
    assert_eq!(get_wind_direction(400), None);
    assert_eq!(get_wind_direction(-1), None);
}

#[test]
fn decimal_rendering() {
    assert_eq!(u64_to_string(0), "0");
    assert_eq!(u64_to_string(7), "7");
    assert_eq!(u64_to_string(1234567890), "1234567890");
}

#[test]
fn lowercase_folding() {
    assert_eq!(lower_str("PiNg"), "ping");
    assert_eq!(lower_str("LATENCY"), "latency");
    assert_eq!(lower_str("a-b_c9"), "a-b_c9");
}

#[test]
fn sorting_and_joining() {
    let v = vec!["uptime".to_string(), "help".to_string(), "ping".to_string()];
    let sorted = sort_strings(&v);
    assert_eq!(sorted, vec!["help".to_string(), "ping".to_string(), "uptime".to_string()]);
    assert_eq!(join_with_sep(&sorted, ", "), "help, ping, uptime");
    assert_eq!(join_with_sep(&sorted, " | "), "help | ping | uptime");
}
