use photo_sort::analysis::exif2date::{get_exif_time, ExifDateType, MetadataError};
use photo_sort::analysis::video2date::get_video_time;
use photo_sort::datetime::{leap_year, valid_date, DateTime, MAX_YEAR, MIN_YEAR};
use photo_sort::text::{
    contains_char, decimal, find_char, from_chars, is_word, parse_number, same_chars, same_text,
    sub_chars, to_chars,
};

#[test]
fn leap_years() {
    assert!(leap_year(2024) && leap_year(2000) && leap_year(0) && leap_year(-4));
    assert!(!leap_year(2023) && !leap_year(1900) && !leap_year(-1) && !leap_year(2100));
}

#[test]
fn calendar_dates() {
    assert!(valid_date(2023, 1, 31) && valid_date(2023, 12, 31) && valid_date(2024, 2, 29));
    assert!(!valid_date(2023, 2, 29) && !valid_date(2023, 4, 31) && !valid_date(2023, 13, 1));
    assert!(!valid_date(2023, 0, 1) && !valid_date(2023, 1, 0) && !valid_date(2023, 1, 32));
    assert!(valid_date(MAX_YEAR, 12, 31) && valid_date(MIN_YEAR, 1, 1));
    assert!(!valid_date(MAX_YEAR + 1, 1, 1) && !valid_date(MIN_YEAR - 1, 12, 31));
}

#[test]
fn calendar_agrees_with_chrono() {
    for year in [-262144, -262143, -5, -4, -1, 0, 1, 1900, 2000, 2023, 2024, 262142, 262143] {
        for month in 0..14u32 {
            for day in 0..33u32 {
                assert_eq!(
                    valid_date(year, month, day),
                    chrono::NaiveDate::from_ymd_opt(year, month, day).is_some(),
                    "{}-{}-{}",
                    year,
                    month,
                    day
                );
            }
        }
    }
}

#[test]
fn checked_constructor() {
    assert_eq!(
        DateTime::new(2023, 1, 2, 3, 4, 5),
        Some(DateTime { year: 2023, month: 1, day: 2, hour: 3, minute: 4, second: 5 })
    );
    assert_eq!(DateTime::new(2023, 2, 30, 0, 0, 0), None);
    assert_eq!(DateTime::new(2023, 1, 2, 24, 0, 0), None);
    assert_eq!(DateTime::new(2023, 1, 2, 0, 60, 0), None);
    assert_eq!(DateTime::new(2023, 1, 2, 0, 0, 60), None);
}

#[test]
fn dates_are_formatted() {
    let d = DateTime { year: 2023, month: 1, day: 1, hour: 10, minute: 0, second: 0 };
    assert_eq!(d.format("%Y%m%d-%H%M%S"), Some("20230101-100000".to_string()));
    assert_eq!(d.format("%Y-%m-%d %H:%M:%S"), Some("2023-01-01 10:00:00".to_string()));
    assert_eq!(d.format(""), Some(String::new()));
    assert_eq!(d.format("plain"), Some("plain".to_string()));
    assert_eq!(d.format("%Q"), None);
    let bad = DateTime { year: 2023, month: 2, day: 30, hour: 0, minute: 0, second: 0 };
    assert_eq!(bad.format("%Y"), None);
}

#[test]
fn dates_are_parsed() {
    assert_eq!(
        DateTime::parse("2023-01-02 03:04:05", "%Y-%m-%d %H:%M:%S"),
        Some(DateTime { year: 2023, month: 1, day: 2, hour: 3, minute: 4, second: 5 })
    );
    assert_eq!(DateTime::parse("2023-01-02", "%Y-%m-%d %H:%M:%S"), None);
    assert_eq!(DateTime::parse("2023-02-30 03:04:05", "%Y-%m-%d %H:%M:%S"), None);
}

#[test]
fn exif_date_text() {
    assert_eq!(get_exif_time(None), Ok(None));
    assert_eq!(
        get_exif_time(Some("2023-01-01 10:00:00")),
        Ok(Some(DateTime { year: 2023, month: 1, day: 1, hour: 10, minute: 0, second: 0 }))
    );
    assert_eq!(get_exif_time(Some("2023:01:01 10:00:00")), Err(MetadataError::InvalidDate));
    assert_eq!(get_exif_time(Some("")), Err(MetadataError::InvalidDate));
}

#[test]
fn video_date_text() {
    assert_eq!(get_video_time(None), Ok(None));
    assert_eq!(
        get_video_time(Some("2023-01-01T10:00:00Z")),
        Ok(Some(DateTime { year: 2023, month: 1, day: 1, hour: 10, minute: 0, second: 0 }))
    );
    assert_eq!(get_video_time(Some("2023-01-01 10:00:00")), Err(MetadataError::InvalidDate));
}

#[test]
fn exif_date_types() {
    for w in ["modify", "m", "modified"] {
        assert_eq!(ExifDateType::from_str(w), Ok(ExifDateType::Modify));
    }
    for w in ["creation", "c", "create", "created"] {
        assert_eq!(ExifDateType::from_str(w), Ok(ExifDateType::Creation));
    }
    for w in ["digitized", "digitize", "d", "digital", "digitalize"] {
        assert_eq!(ExifDateType::from_str(w), Ok(ExifDateType::Digitized));
    }
    assert_eq!(ExifDateType::from_str("Modify"), Err(MetadataError::InvalidDateType));
    assert_eq!(ExifDateType::from_str(""), Err(MetadataError::InvalidDateType));
}

#[test]
fn chars_round_trip() {
    assert_eq!(to_chars("aé✓"), vec!['a', 'é', '✓']);
    assert_eq!(from_chars(&['a', 'é', '✓']), "aé✓");
    assert_eq!(from_chars(&[]), "");
    assert_eq!(sub_chars(&['a', 'b', 'c', 'd'], 1, 3), vec!['b', 'c']);
    assert_eq!(sub_chars(&['a', 'b'], 2, 2), Vec::<char>::new());
}

#[test]
fn text_comparisons() {
    assert!(same_chars(&['a', 'b'], &['a', 'b']));
    assert!(!same_chars(&['a', 'b'], &['a', 'c']));
    assert!(!same_chars(&['a'], &['a', 'b']));
    assert!(same_chars(&[], &[]));
    assert!(same_text("é", "é") && !same_text("e", "é"));
    assert!(is_word(&['n'], "n") && !is_word(&['n'], "name") && is_word(&[], ""));
}

#[test]
fn characters_are_found() {
    let s = ['a', '?', 'b', '?'];
    assert_eq!(find_char(&s, '?', 0), 1);
    assert_eq!(find_char(&s, '?', 1), 1);
    assert_eq!(find_char(&s, '?', 2), 3);
    assert_eq!(find_char(&s, '?', 4), 4);
    assert_eq!(find_char(&s, 'x', 0), 4);
    assert!(contains_char(&s, 'b') && !contains_char(&s, 'c') && !contains_char(&[], 'a'));
}

#[test]
fn numbers_in_decimal() {
    assert_eq!(decimal(0), "0");
    assert_eq!(decimal(7), "7");
    assert_eq!(decimal(10), "10");
    assert_eq!(decimal(1234567890), "1234567890");
    assert_eq!(decimal(u64::MAX), "18446744073709551615");
}

#[test]
fn numbers_are_read() {
    assert_eq!(parse_number(&to_chars("0")), Some(0));
    assert_eq!(parse_number(&to_chars("007")), Some(7));
    assert_eq!(parse_number(&to_chars("4294967295")), Some(u32::MAX));
    assert_eq!(parse_number(&to_chars("4294967296")), None);
    assert_eq!(parse_number(&to_chars("99999999999999999999999")), None);
    assert_eq!(parse_number(&to_chars("")), None);
    assert_eq!(parse_number(&to_chars("12a")), None);
    assert_eq!(parse_number(&to_chars("+12")), None);
    assert_eq!(parse_number(&to_chars("١٢")), None);
}
