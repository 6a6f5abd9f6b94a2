use dashboard_core::dates::{format_date, leap_year, month_days, next_date, parse_date};

#[test]
fn leap_years_follow_the_gregorian_rule() {
    assert!(leap_year(2024));
    assert!(!leap_year(2023));
    assert!(!leap_year(1900));
    assert!(leap_year(2000));
}

#[test]
fn month_lengths() {
    assert_eq!(month_days(2024, 2), 29);
    assert_eq!(month_days(2023, 2), 28);
    assert_eq!(month_days(2024, 4), 30);
    assert_eq!(month_days(2024, 12), 31);
}

#[test]
fn successor_rolls_days_months_and_years() {
    assert_eq!(next_date(2024, 3, 1), (2024, 3, 2));
    assert_eq!(next_date(2024, 2, 29), (2024, 3, 1));
    assert_eq!(next_date(2024, 12, 31), (2025, 1, 1));
    assert_eq!(next_date(2024, 4, 30), (2024, 5, 1));
}

#[test]
fn successor_saturates_at_the_last_representable_date() {
    assert_eq!(next_date(262142, 12, 31), (262142, 12, 31));
}

#[test]
fn dates_render_zero_padded() {
    assert_eq!(format_date(2024, 3, 2), "2024-03-02");
    assert_eq!(format_date(999, 1, 5), "0999-01-05");
    assert_eq!(format_date(0, 12, 31), "0000-12-31");
}

#[test]
fn years_outside_four_digits_carry_a_sign() {
    assert_eq!(format_date(10000, 1, 1), "+10000-01-01");
    assert_eq!(format_date(-1, 1, 1), "-0001-01-01");
}

#[test]
fn parsing_accepts_calendar_dates_only() {
    assert_eq!(parse_date("2024-03-01"), Some((2024, 3, 1)));
    assert_eq!(parse_date("2024-02-30"), None);
    assert_eq!(parse_date("2024-13-01"), None);
    assert_eq!(parse_date("hello"), None);
    assert_eq!(parse_date(""), None);
    assert_eq!(parse_date("2024-03-01x"), None);
    assert_eq!(parse_date("-0001-01-05"), Some((-1, 1, 5)));
}

#[test]
fn parsing_matches_the_renderer_on_round_trips() {
    let (y, m, d) = parse_date("2024-03-01").unwrap();
    assert_eq!(format_date(y, m, d), "2024-03-01");
}
