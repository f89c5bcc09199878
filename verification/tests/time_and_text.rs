use meter::display::{format_duration, format_remaining, format_remaining_time, shorten, truncate_string};
use meter::text::{
    contains_ignoring_case, decimal_string, has_char, parse_digits, parse_hundredths, parse_i32,
    push_hundredths, push_zero_padded,
};
use meter::time::{
    local_time_of, read_local_minute, write_local_minute, LocalTime, Timestamp, MAX_SECS, MIN_SECS,
};

fn at(secs: i64) -> Timestamp {
    Timestamp::new(secs, 0).unwrap()
}

#[test]
fn timestamp_accepts_exactly_the_representable_range() {
    assert!(Timestamp::new(MIN_SECS, 0).is_some());
    assert!(Timestamp::new(MAX_SECS, 999_999_999).is_some());
    assert!(Timestamp::new(MIN_SECS - 1, 0).is_none());
    assert!(Timestamp::new(MAX_SECS + 1, 0).is_none());
    assert!(Timestamp::new(0, 1_000_000_000).is_none());
    let t = Timestamp::new(12, 34).unwrap();
    assert_eq!(t.secs(), 12);
    assert_eq!(t.nanos(), 34);
}

#[test]
fn seconds_since_truncates_toward_zero() {
    let a = Timestamp::new(10, 900_000_000).unwrap();
    let b = Timestamp::new(12, 100_000_000).unwrap();
    assert_eq!(b.seconds_since(&a), 1);
    assert_eq!(a.seconds_since(&b), -1);
    assert_eq!(a.seconds_since(&a), 0);
    let c = Timestamp::new(12, 900_000_000).unwrap();
    assert_eq!(c.seconds_since(&a), 2);
    assert_eq!(at(5400).seconds_since(&at(0)), 5400);
}

#[test]
fn seconds_since_agrees_with_chrono() {
    let pairs = [(10i64, 900_000_000u32, 12i64, 100_000_000u32), (12, 1, 10, 2), (0, 0, 86_400, 5)];
    for (s1, n1, s2, n2) in pairs {
        let a = Timestamp::new(s1, n1).unwrap();
        let b = Timestamp::new(s2, n2).unwrap();
        let ca = chrono::DateTime::from_timestamp(s1, n1).unwrap();
        let cb = chrono::DateTime::from_timestamp(s2, n2).unwrap();
        assert_eq!(b.seconds_since(&a), (cb - ca).num_seconds());
        assert_eq!(a.seconds_since(&b), (ca - cb).num_seconds());
    }
}

#[test]
fn instants_are_ordered_by_seconds_then_nanoseconds() {
    let a = Timestamp::new(10, 5).unwrap();
    let b = Timestamp::new(10, 6).unwrap();
    let c = Timestamp::new(11, 0).unwrap();
    assert!(a.le(&b));
    assert!(!b.le(&a));
    assert!(b.le(&c));
    assert!(a.le(&a));
}

#[test]
fn days_are_added_and_subtracted_on_the_time_line() {
    let t = Timestamp::new(1_700_000_000, 7).unwrap();
    let later = t.checked_add_days(30).unwrap();
    assert_eq!(later.secs(), 1_700_000_000 + 30 * 86_400);
    assert_eq!(later.nanos(), 7);
    let earlier = t.checked_sub_days(1).unwrap();
    assert_eq!(earlier.secs(), 1_700_000_000 - 86_400);
    assert!(at(MAX_SECS).checked_add_days(1).is_none());
    assert!(at(MIN_SECS).checked_sub_days(1).is_none());
    assert_eq!(at(MAX_SECS).checked_add_days(0), Some(at(MAX_SECS)));
}

#[test]
fn start_of_day_is_midnight_utc() {
    assert_eq!(at(1_700_000_000).start_of_day().secs(), 1_699_920_000);
    assert_eq!(at(-1).start_of_day().secs(), -86_400);
    assert_eq!(at(0).start_of_day().secs(), 0);
}

#[test]
fn calendar_date_comes_from_the_calendar() {
    let d = at(1_700_000_000).date();
    assert_eq!((d.year, d.month, d.day), (2023, 11, 14));
    let e = at(0).date();
    assert_eq!((e.year, e.month, e.day), (1970, 1, 1));
    let f = at(951_782_400).date();
    assert_eq!((f.year, f.month, f.day), (2000, 2, 29));
}

#[test]
fn date_text_is_year_month_day() {
    assert_eq!(at(1_700_000_000).date_text(), "2023-11-14");
    assert_eq!(at(0).date_text(), "1970-01-01");
}

#[test]
fn early_years_are_written_in_four_digits() {
    assert_eq!(at(-31_000_000_000).date_text(), "0987-08-25");
    assert_eq!(at(-62_000_000_000).date_text(), "0005-04-19");
    let d = at(-62_000_000_000).date();
    assert_eq!((d.year, d.month, d.day), (5, 4, 19));
}

#[test]
fn cut_texts_fit_the_limit() {
    for limit in 3..40usize {
        let cut = truncate_string("this description is too long to be shown", limit);
        assert_eq!(cut.len(), limit);
        assert!(cut.ends_with("..."));
    }
    assert_eq!(truncate_string("née Müller-Lüdenscheidt", 8), "née ...");
    assert_eq!(truncate_string("née Müller-Lüdenscheidt", 8).len(), 8);
}

#[test]
fn start_of_month_is_first_midnight() {
    let start = at(1_700_000_000).start_of_month().unwrap();
    assert_eq!(start.date_text(), "2023-11-01");
    assert_eq!(start.secs() % 86_400, 0);
    let first = at(1_700_000_000).first_of_month().unwrap();
    assert_eq!(first.secs(), 1_700_000_000 - 13 * 86_400);
}

#[test]
fn local_minute_text_round_trips() {
    let t = at(1_718_454_840);
    let text = write_local_minute(&t);
    assert_eq!(text.len(), 16);
    assert_eq!(read_local_minute(&text), LocalTime::At(t));
}

#[test]
fn local_minute_text_drops_seconds() {
    let t = Timestamp::new(1_718_454_840 + 17, 5).unwrap();
    let text = write_local_minute(&t);
    assert_eq!(read_local_minute(&text), LocalTime::At(at(1_718_454_840)));
}

#[test]
fn malformed_local_time_is_reported() {
    assert_eq!(read_local_minute("yesterday"), LocalTime::Malformed);
    assert_eq!(read_local_minute(""), LocalTime::Malformed);
    assert_eq!(read_local_minute("2024-13-01 10:00"), LocalTime::Malformed);
}

#[test]
fn case_is_ignored_when_looking_for_terms() {
    assert!(contains_ignoring_case("NET 30", "net 30"));
    assert!(contains_ignoring_case("Payment: Net 30 days", "net 30"));
    assert!(!contains_ignoring_case("Net 3 0", "net 30"));
    assert!(!contains_ignoring_case("", "net 30"));
    assert!(contains_ignoring_case("anything", ""));
}

#[test]
fn numbers_are_written_in_decimal() {
    assert_eq!(decimal_string(0), "0");
    assert_eq!(decimal_string(7), "7");
    assert_eq!(decimal_string(1234567890), "1234567890");
    assert_eq!(decimal_string(-45), "-45");
    assert_eq!(decimal_string(i64::MAX), i64::MAX.to_string());
    assert_eq!(decimal_string(i64::MIN), i64::MIN.to_string());
}

#[test]
fn zero_padding_fills_after_the_sign() {
    let cases: [(i64, usize); 8] =
        [(0, 2), (5, 2), (12, 2), (123, 2), (-5, 2), (-5, 4), (7, 4), (12345, 4)];
    for (n, width) in cases {
        let mut s = String::from(">");
        push_zero_padded(&mut s, n, width);
        assert_eq!(s, format!(">{:0width$}", n, width = width));
    }
}

#[test]
fn hundredths_are_written_with_two_decimals() {
    for (n, text) in [(0u64, "0.00"), (5, "0.05"), (150, "1.50"), (15000, "150.00"), (123456, "1234.56")] {
        let mut s = String::new();
        push_hundredths(&mut s, n);
        assert_eq!(s, text);
    }
}

#[test]
fn whole_numbers_are_read_like_the_standard_parser() {
    for text in ["0", "45", "-45", "+45", "007", "2147483647", "2147483648", "-2147483648",
        "-2147483649", "", "-", "+", "4 5", "4.5", "abc", "１２", "99999999999999999999999"]
    {
        assert_eq!(parse_i32(text), text.parse::<i32>().ok(), "{:?}", text);
    }
}

#[test]
fn digit_runs_are_read_up_to_the_limit() {
    assert_eq!(parse_digits(""), Some(0));
    assert_eq!(parse_digits("18446744073709551615"), Some(u64::MAX));
    assert_eq!(parse_digits("18446744073709551616"), None);
    assert_eq!(parse_digits("12a"), None);
}

#[test]
fn decimal_amounts_are_read_as_hundredths() {
    assert_eq!(parse_hundredths("150"), Some(15000));
    assert_eq!(parse_hundredths("150.5"), Some(15050));
    assert_eq!(parse_hundredths("150.55"), Some(15055));
    assert_eq!(parse_hundredths("150.559"), Some(15055));
    assert_eq!(parse_hundredths("0.07"), Some(7));
    assert_eq!(parse_hundredths(".5"), Some(50));
    assert_eq!(parse_hundredths("5."), Some(500));
    assert_eq!(parse_hundredths("."), None);
    assert_eq!(parse_hundredths(""), None);
    assert_eq!(parse_hundredths("1.2.3"), None);
    assert_eq!(parse_hundredths("-1"), None);
    assert_eq!(parse_hundredths("1e3"), None);
    assert_eq!(parse_hundredths("184467440737095516.15"), Some(u64::MAX));
    assert_eq!(parse_hundredths("184467440737095516.16"), None);
}

#[test]
fn characters_are_found_in_text() {
    assert!(has_char("12.5", '.'));
    assert!(!has_char("125", '.'));
    assert!(!has_char("", '.'));
}

#[test]
fn durations_are_shown_as_clock_time() {
    for s in [0i64, 5, 59, 60, 3599, 3600, 3661, 86_399, 360_000, -5, -65, -3700] {
        let hours = s / 3600;
        let minutes = (s % 3600) / 60;
        let secs = s % 60;
        assert_eq!(format_duration(s), format!("{:02}:{:02}:{:02}", hours, minutes, secs));
    }
    assert_eq!(format_duration(3661), "01:01:01");
}

#[test]
fn remaining_time_is_shown_as_minutes_and_seconds() {
    for s in [0i64, 9, 60, 61, 2699, 2700, 6000, -1, -61] {
        assert_eq!(format_remaining(s), format!("{:02}:{:02}", s / 60, s % 60));
        assert_eq!(format_remaining_time(s), format_remaining(s));
    }
    assert_eq!(format_remaining(2700), "45:00");
}

#[test]
fn long_texts_are_cut_with_dots() {
    assert_eq!(truncate_string("short", 20), "short");
    assert_eq!(truncate_string("exactly twenty chars", 20), "exactly twenty chars");
    assert_eq!(truncate_string("this description is too long", 20), "this description ...");
    assert_eq!(truncate_string("abcd", 3), "...");
    assert_eq!(truncate_string("ab", 2), "ab");
    assert_eq!(truncate_string("a", 1), "a");
    assert_eq!(truncate_string("", 0), "");
    assert_eq!(shorten("abc", 2), "abc");
}

#[test]
fn shorten_leaves_text_whole_where_it_cannot_be_cut() {
    assert_eq!(shorten("this description is too long", 20), "this description ...");
    assert_eq!(shorten("abcdef", 2), "abcdef");
    assert_eq!(shorten("ééééé", 6), "ééééé");
    assert_eq!(shorten("éééé", 5), "é...");
}

#[test]
fn seconds_are_added_within_the_range() {
    let t = Timestamp::new(100, 9).unwrap();
    let later = t.checked_add_secs(50).unwrap();
    assert_eq!((later.secs(), later.nanos()), (150, 9));
    assert_eq!(t.checked_add_secs(-200).unwrap().secs(), -100);
    assert!(t.checked_add_secs(i64::MAX).is_none());
    assert!(t.checked_add_secs(i64::MIN).is_none());
    assert!(at(MAX_SECS).checked_add_secs(1).is_none());
    assert_eq!(at(MAX_SECS).checked_add_secs(MIN_SECS - MAX_SECS), Some(at(MIN_SECS)));
}

#[test]
fn centered_box_leaves_equal_margins() {
    assert_eq!(meter::display::centered_margin(60), 20);
    assert_eq!(meter::display::centered_margin(100), 0);
    assert_eq!(meter::display::centered_margin(0), 50);
    assert_eq!(meter::display::centered_margin(45), 27);
}

#[test]
fn resolved_parts_become_the_instant() {
    assert_eq!(local_time_of(None), LocalTime::Unresolved);
    assert_eq!(
        local_time_of(Some((1_700_000_000, 5))),
        LocalTime::At(Timestamp::new(1_700_000_000, 5).unwrap())
    );
    assert_eq!(local_time_of(Some((MIN_SECS, 0))), LocalTime::At(at(MIN_SECS)));
    assert!(matches!(local_time_of(Some((MAX_SECS, 999_999_999))), LocalTime::At(_)));
    assert_eq!(local_time_of(Some((MAX_SECS + 1, 0))), LocalTime::Unresolved);
    assert_eq!(local_time_of(Some((MIN_SECS - 1, 0))), LocalTime::Unresolved);
    assert_eq!(local_time_of(Some((0, 1_000_000_000))), LocalTime::Unresolved);
}

#[test]
fn local_text_is_the_text_of_a_time_within_a_day() {
    for secs in [0i64, 1_700_000_000, 1_718_454_897, -31_000_000_000, 4_102_444_800] {
        let text = write_local_minute(&at(secs));
        assert!(text.len() >= 16);
        let shown = chrono::NaiveDateTime::parse_from_str(&text, "%Y-%m-%d %H:%M")
            .unwrap()
            .and_utc()
            .timestamp();
        assert!(secs - 86_400 - 60 < shown && shown < secs + 86_400);
        let local = chrono::DateTime::from_timestamp(secs, 0)
            .unwrap()
            .with_timezone(&chrono::Local);
        assert_eq!(text, local.format("%Y-%m-%d %H:%M").to_string());
        assert_ne!(text, "0000-00-00 00:00");
    }
}

#[test]
fn instant_read_from_a_text_is_within_a_day_of_it() {
    for (text, held) in [
        ("2024-06-15 12:34", 1_718_454_840i64),
        ("1970-01-01 00:00", 0),
        ("2023-11-14 22:13", 1_700_000_000 - 1_700_000_000 % 60),
    ] {
        match read_local_minute(text) {
            LocalTime::At(t) => {
                assert!(held - 86_400 < t.secs() && t.secs() < held + 86_400);
                assert_eq!(t.nanos(), 0);
                assert_eq!(write_local_minute(&t), text);
            }
            LocalTime::Unresolved => {}
            LocalTime::Malformed => panic!("the text is well formed"),
        }
    }
    assert_eq!(read_local_minute("2024-06-15 12:34:56"), LocalTime::Malformed);
    assert_eq!(read_local_minute("2024-06-15"), LocalTime::Malformed);
}
