use rapportage_downloader::date::Date;
use rapportage_downloader::text::{parse_u32, take_last_segment, trim_chars};

#[test]
fn trim_strips_surrounding_whitespace() {
    assert_eq!(trim_chars("  871234500042  "), "871234500042");
    assert_eq!(trim_chars("\t a b \r\n"), "a b");
    assert_eq!(trim_chars("nospace"), "nospace");
    assert_eq!(trim_chars("   "), "");
    assert_eq!(trim_chars(""), "");
}

#[test]
fn parse_u32_accepts_digit_strings() {
    assert_eq!(parse_u32("84104"), Some(84104));
    assert_eq!(parse_u32("0"), Some(0));
    assert_eq!(parse_u32("4294967295"), Some(u32::MAX));
}

#[test]
fn parse_u32_rejects_non_numbers() {
    assert_eq!(parse_u32(""), None);
    assert_eq!(parse_u32("12a"), None);
    assert_eq!(parse_u32("-5"), None);
    assert_eq!(parse_u32("4294967296"), None);
}

#[test]
fn last_segment_takes_the_path_tail() {
    assert_eq!(take_last_segment("/Connections/Edit/Index/84104"), "84104");
    assert_eq!(take_last_segment("noslash"), "noslash");
    assert_eq!(take_last_segment("trailing/"), "");
    assert_eq!(take_last_segment(""), "");
}

#[test]
fn date_validity_follows_the_calendar() {
    assert!(Date::new(2024, 2, 29).is_some());
    assert!(Date::new(2023, 2, 29).is_none());
    assert!(Date::new(1900, 2, 29).is_none());
    assert!(Date::new(2000, 2, 29).is_some());
    assert!(Date::new(2024, 4, 31).is_none());
    assert!(Date::new(2024, 0, 1).is_none());
    assert!(Date::new(0, 1, 1).is_none());
    assert!(Date::new(10000, 1, 1).is_none());
}

#[test]
fn prev_year_keeps_the_day_when_it_exists() {
    let d = Date::new(2024, 3, 15).unwrap();
    let p = d.prev_year().unwrap();
    assert_eq!((p.year, p.month, p.day), (2023, 3, 15));
}

#[test]
fn prev_year_rejects_a_vanishing_leap_day() {
    let d = Date::new(2024, 2, 29).unwrap();
    assert!(d.prev_year().is_none());
    let d = Date::new(1, 6, 1).unwrap();
    assert!(d.prev_year().is_none());
}

#[test]
fn format_ymd_zero_pads() {
    let d = Date::new(987, 4, 5).unwrap();
    assert_eq!(d.format_ymd(), "0987-04-05");
    let d = Date::new(2024, 12, 31).unwrap();
    assert_eq!(d.format_ymd(), "2024-12-31");
}
