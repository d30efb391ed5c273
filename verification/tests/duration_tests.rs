use rusty::duration::{format_duration, TimeSpan};
use rusty::serp::parse_duration_string;
use rusty::timer::{
    expiry_message, explicit_timer_span, parse_relative_duration, timer_candidates, timer_confirmation,
};

#[test]
fn test_format_duration_zero_seconds() {
    assert_eq!(format_duration(TimeSpan::from_secs(0)), "0:00");
}

#[test]
fn test_format_duration_seconds_only() {
    assert_eq!(format_duration(TimeSpan::from_secs(9)), "0:09");
    assert_eq!(format_duration(TimeSpan::from_secs(59)), "0:59");
}

#[test]
fn test_format_duration_minutes_and_seconds() {
    assert_eq!(format_duration(TimeSpan::from_secs(60)), "1:00");
    assert_eq!(format_duration(TimeSpan::from_secs(225)), "3:45");
    assert_eq!(format_duration(TimeSpan::from_secs(3599)), "59:59");
}

#[test]
fn test_format_duration_hours_minutes_seconds() {
    assert_eq!(format_duration(TimeSpan::from_secs(3600)), "1:00:00");
    assert_eq!(format_duration(TimeSpan::from_secs(3723)), "1:02:03");
    assert_eq!(format_duration(TimeSpan::from_secs(36000)), "10:00:00");
}

#[test]
fn test_parse_duration_string() {
    assert_eq!(parse_duration_string("5:32"), Some(TimeSpan::from_secs(332)));
    assert_eq!(parse_duration_string("1:23:45"), Some(TimeSpan::from_secs(5025)));
    assert_eq!(parse_duration_string("0:59"), Some(TimeSpan::from_secs(59)));
    assert_eq!(parse_duration_string("10:00"), Some(TimeSpan::from_secs(600)));
    assert_eq!(parse_duration_string("1:00:00"), Some(TimeSpan::from_secs(3600)));
    assert_eq!(parse_duration_string(""), None);
    assert_eq!(parse_duration_string("abc"), None);
    assert_eq!(parse_duration_string("5:"), None);
    assert_eq!(parse_duration_string(":32"), None);
    assert_eq!(parse_duration_string("1:2:3:4"), None);
    assert_eq!(parse_duration_string("1:aa:30"), None);
}

#[test]
fn format_duration_ignores_sub_second_part() {
    assert_eq!(format_duration(TimeSpan::new(61, 999_999_999)), "1:01");
}

#[test]
fn time_span_arithmetic() {
    let a = TimeSpan::new(1, 600_000_000);
    let b = TimeSpan::new(2, 500_000_000);
    assert_eq!(a.checked_add(&b), Some(TimeSpan::new(4, 100_000_000)));
    assert_eq!(a.plus(&b), TimeSpan::new(4, 100_000_000));
    assert_eq!(b.saturating_sub(&a), TimeSpan::new(0, 900_000_000));
    assert_eq!(a.saturating_sub(&b), TimeSpan::from_secs(0));
    assert_eq!(TimeSpan::from_secs(u64::MAX).checked_add(&TimeSpan::from_secs(1)), None);
    assert_eq!(TimeSpan::new(0, 2_500_000_000), TimeSpan::new(2, 500_000_000));
    assert_eq!(TimeSpan::from_millis(1500), TimeSpan::new(1, 500_000_000));
    assert!(b.longer_than(&a));
    assert!(!a.longer_than(&a));
}

#[test]
fn relative_duration_is_read_by_the_parser() {
    assert_eq!(parse_relative_duration("1 hour"), Some(TimeSpan::from_secs(3600)));
    assert_eq!(parse_relative_duration("15 minutes 30 seconds"), Some(TimeSpan::from_secs(930)));
    assert_eq!(parse_relative_duration("soon"), None);
}

#[test]
fn timer_candidates_try_longest_pieces_first() {
    assert_eq!(timer_candidates("a b"), (vec![(0, 3), (0, 1), (1, 3), (1, 1)], false));
    assert_eq!(timer_candidates(""), (Vec::<(usize, usize)>::new(), false));
    assert_eq!(timer_candidates("ab"), (vec![(0, 2)], false));
    assert_eq!(timer_candidates("é 5m"), (vec![(0, 5)], true));
}

#[test]
fn explicit_timer_moves_past_times_to_tomorrow() {
    // 8:00 local stop, zone UTC+1, now is 9:00 UTC: already past, so tomorrow.
    let hour: i64 = 3_600_000;
    let r = explicit_timer_span(8 * hour, 3600, 9 * hour);
    assert_eq!(r, Some(TimeSpan::from_millis((24 - 2) as u64 * 3_600_000)));
    assert_eq!(explicit_timer_span(10 * hour, 0, 9 * hour), Some(TimeSpan::from_secs(3600)));
    assert_eq!(explicit_timer_span(0, 0, 2 * 24 * hour), None);
}

#[test]
fn timer_texts() {
    assert_eq!(
        timer_confirmation(TimeSpan::from_secs(3723)),
        "Okay, I've set a timer for **01:02:03**."
    );
    assert_eq!(
        timer_confirmation(TimeSpan::from_secs(100 * 3600)),
        "Okay, I've set a timer for **100:00:00**."
    );
    assert_eq!(expiry_message(&vec![1, 22]), "Your timer has expired.\n<@1><@22>");
    assert_eq!(expiry_message(&vec![]), "Your timer has expired.\n");
}
