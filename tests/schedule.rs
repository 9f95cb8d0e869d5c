use zooom::clock::{Date, LocalDateTime, TimeOfDay, Weekday};
use zooom::loader::{Format, ReadError};
use zooom::meeting::{Frequency, Meeting};
use zooom::select::{active_candidates, resolve_choice, select, Policy, SelectError, Selection};

fn hms(h: u32, m: u32, s: u32) -> TimeOfDay {
    TimeOfDay::from_hms(h, m, s).unwrap()
}

fn ymd(y: i32, m: u32, d: u32) -> Date {
    Date::from_ymd(y, m, d).unwrap()
}

fn at(date: Date, time: TimeOfDay) -> LocalDateTime {
    LocalDateTime::new(date, time)
}

fn meeting(name: &str, freq: Frequency, start: TimeOfDay, end: TimeOfDay) -> Meeting {
    Meeting::new(name.to_string(), freq, start, end, "123".to_string(), None)
}

fn nine_to_ten(freq: Frequency) -> Meeting {
    meeting("standup", freq, hms(9, 0, 0), hms(10, 0, 0))
}

#[test]
fn daily_window_edges() {
    let m = nine_to_ten(Frequency::Daily);
    let day = ymd(2024, 3, 5);
    assert!(m.is_active(&at(day, hms(9, 0, 0)), 0, 0));
    assert!(!m.is_active(&at(day, hms(8, 59, 59)), 0, 0));
    assert!(m.is_active(&at(day, hms(10, 0, 0)), 0, 0));
    assert!(!m.is_active(&at(day, hms(10, 0, 1)), 0, 0));
}

#[test]
fn daily_window_counts_nanoseconds() {
    let m = nine_to_ten(Frequency::Daily);
    let day = ymd(2024, 3, 5);
    let just_after_end = TimeOfDay::from_secs_nanos(36_000, 1).unwrap();
    assert!(!m.is_active(&at(day, just_after_end), 0, 0));
    let just_before_start = TimeOfDay::from_secs_nanos(32_399, 999_999_999).unwrap();
    assert!(!m.is_active(&at(day, just_before_start), 0, 0));
    assert!(m.is_active(&at(day, just_before_start), 1, 0));
}

#[test]
fn once_only_on_its_date() {
    let m = nine_to_ten(Frequency::Once(ymd(2024, 3, 5)));
    assert!(m.is_active(&at(ymd(2024, 3, 5), hms(9, 30, 0)), 0, 0));
    assert!(!m.is_active(&at(ymd(2024, 3, 6), hms(9, 30, 0)), 0, 0));
    assert!(!m.is_active(&at(ymd(2024, 3, 4), hms(9, 30, 0)), 100_000, -100_000));
}

#[test]
fn weekly_only_on_listed_days() {
    let m = nine_to_ten(Frequency::Weekly(vec![Weekday::Mon, Weekday::Wed]));
    // 2024-01-01 is a Monday.
    assert!(m.is_active(&at(ymd(2024, 1, 1), hms(9, 30, 0)), 0, 0));
    assert!(!m.is_active(&at(ymd(2024, 1, 2), hms(9, 30, 0)), 0, 0));
    assert!(m.is_active(&at(ymd(2024, 1, 3), hms(9, 30, 0)), 0, 0));
    assert!(!m.is_active(&at(ymd(2024, 1, 7), hms(9, 30, 0)), 100_000, -100_000));
}

#[test]
fn weekly_with_no_days_never_active() {
    let m = nine_to_ten(Frequency::Weekly(vec![]));
    assert!(!m.is_active(&at(ymd(2024, 1, 1), hms(9, 30, 0)), 0, 0));
}

#[test]
fn start_buffer_admits_earlier() {
    let m = nine_to_ten(Frequency::Daily);
    let day = ymd(2024, 3, 5);
    assert!(m.is_active(&at(day, hms(8, 59, 0)), 60, 0));
    assert!(!m.is_active(&at(day, hms(8, 58, 59)), 60, 0));
    assert!(!m.is_active(&at(day, hms(8, 59, 0)), 59, 0));
}

#[test]
fn end_buffer_cuts_earlier() {
    let m = nine_to_ten(Frequency::Daily);
    let day = ymd(2024, 3, 5);
    assert!(m.is_active(&at(day, hms(9, 59, 0)), 0, 60));
    assert!(!m.is_active(&at(day, hms(9, 59, 1)), 0, 60));
    assert!(m.is_active(&at(day, hms(10, 0, 30)), 0, -30));
    assert!(!m.is_active(&at(day, hms(10, 0, 31)), 0, -30));
}

#[test]
fn reversed_window_never_active() {
    let m = meeting("late", Frequency::Daily, hms(10, 0, 0), hms(9, 0, 0));
    let day = ymd(2024, 3, 5);
    assert!(!m.is_active(&at(day, hms(9, 30, 0)), 0, 0));
    assert!(!m.is_active(&at(day, hms(10, 0, 0)), 0, 0));
    assert!(!m.is_active(&at(day, hms(9, 0, 0)), 0, 0));
}

#[test]
fn huge_buffers_do_not_overflow() {
    let m = nine_to_ten(Frequency::Daily);
    let day = ymd(2024, 3, 5);
    assert!(m.is_active(&at(day, hms(0, 0, 0)), i64::MAX, i64::MIN));
    assert!(!m.is_active(&at(day, hms(9, 30, 0)), i64::MIN, 0));
}

#[test]
fn url_without_passcode() {
    let m = meeting("a", Frequency::Daily, hms(9, 0, 0), hms(10, 0, 0));
    assert_eq!(m.get_url(), "zoommtg://zoom.us/join?confno=123");
}

#[test]
fn url_with_passcode() {
    let m = Meeting::new(
        "a".to_string(),
        Frequency::Daily,
        hms(9, 0, 0),
        hms(10, 0, 0),
        "123".to_string(),
        Some("abc".to_string()),
    );
    let url = m.get_url();
    assert!(url.contains("&pwd=abc"));
    assert_eq!(url, "zoommtg://zoom.us/join?confno=123&pwd=abc");
}

#[test]
fn dates_follow_the_calendar() {
    assert!(Date::from_ymd(2024, 2, 29).is_some());
    assert!(Date::from_ymd(2023, 2, 29).is_none());
    assert!(Date::from_ymd(1900, 2, 29).is_none());
    assert!(Date::from_ymd(2000, 2, 29).is_some());
    assert!(Date::from_ymd(2024, 4, 31).is_none());
    assert!(Date::from_ymd(2024, 13, 1).is_none());
    assert!(Date::from_ymd(2024, 1, 0).is_none());
    assert!(Date::from_ymd(262_142, 12, 31).is_some());
    assert!(Date::from_ymd(262_143, 1, 1).is_none());
    assert!(Date::from_ymd(-262_143, 1, 1).is_some());
    assert!(Date::from_ymd(-262_144, 12, 31).is_none());
}

#[test]
fn weekdays_of_known_dates() {
    assert_eq!(ymd(2024, 1, 1).weekday(), Weekday::Mon);
    assert_eq!(ymd(2024, 3, 5).weekday(), Weekday::Tue);
    assert_eq!(ymd(2000, 1, 1).weekday(), Weekday::Sat);
    assert_eq!(ymd(1970, 1, 1).weekday(), Weekday::Thu);
    assert_eq!(ymd(2023, 12, 31).weekday(), Weekday::Sun);
}

#[test]
fn times_of_day() {
    assert_eq!(hms(9, 0, 0).secs, 32_400);
    assert!(TimeOfDay::from_hms(24, 0, 0).is_none());
    assert!(TimeOfDay::from_hms(23, 60, 0).is_none());
    assert!(TimeOfDay::from_hms(23, 59, 60).is_none());
    assert!(TimeOfDay::from_secs_nanos(86_400, 0).is_none());
    assert!(TimeOfDay::from_secs_nanos(0, 1_000_000_000).is_none());
    assert_eq!(hms(10, 0, 0).nanos_since(&hms(9, 0, 0)), 3_600_000_000_000);
    assert_eq!(hms(9, 0, 0).nanos_since(&hms(10, 0, 0)), -3_600_000_000_000);
}

#[test]
fn extensions_pick_formats() {
    assert_eq!(Format::from_extension("json"), Some(Format::Json));
    assert_eq!(Format::from_extension("toml"), Some(Format::Toml));
    assert_eq!(Format::from_extension("yaml"), Some(Format::Yaml));
    assert_eq!(Format::from_extension("yml"), Some(Format::Yaml));
    assert_eq!(Format::from_extension("JSON"), None);
    assert_eq!(Format::from_extension(""), None);
    assert_eq!(Format::of_path("dir/meetings.yml"), Some(Format::Yaml));
    assert_eq!(Format::of_path("meetings.tar.toml"), Some(Format::Toml));
    assert_eq!(Format::of_path("meetings"), None);
    assert_eq!(Format::of_path(".json"), None);
}

#[test]
fn unknown_extension_not_supported_whatever_the_text() {
    for text in ["[]", "not a document", ""] {
        let r = Meeting::read_meetings("meetings.txt", Ok(text.to_string()));
        assert!(matches!(r, Err(ReadError::FormatNotSupported)));
    }
    let r = Meeting::read_meetings("meetings", Ok("[]".to_string()));
    assert!(matches!(r, Err(ReadError::FormatNotSupported)));
}

#[test]
fn read_failure_comes_first() {
    let r = Meeting::read_meetings("meetings.txt", Err("no such file".to_string()));
    match r {
        Err(ReadError::IOError(m)) => assert_eq!(m, "no such file"),
        _ => panic!("expected an IO error"),
    }
}

#[test]
fn known_extension_hands_over_the_text() {
    match Meeting::read_meetings("a/b.json", Ok("[]".to_string())) {
        Ok((f, text)) => {
            assert_eq!(f, Format::Json);
            assert_eq!(text, "[]");
        }
        _ => panic!("expected a format"),
    }
}

#[test]
fn decode_failure_is_whole() {
    match Format::Json.decoded(Err("expected value at line 1".to_string())) {
        Err(ReadError::JsonError(m)) => assert_eq!(m, "expected value at line 1"),
        _ => panic!("expected a JSON error"),
    }
    assert!(matches!(Format::Toml.decoded(Err("x".to_string())), Err(ReadError::TomlError(_))));
    assert!(matches!(Format::Yaml.decoded(Err("x".to_string())), Err(ReadError::YamlError(_))));
    let list = vec![nine_to_ten(Frequency::Daily)];
    match Format::Yaml.decoded(Ok(list)) {
        Ok(v) => assert_eq!(v.len(), 1),
        _ => panic!("expected the list"),
    }
}

#[test]
fn selection_by_pool_size() {
    assert_eq!(select(0, Policy::First), Selection::NoneFound);
    assert_eq!(select(0, Policy::Interactive), Selection::NoneFound);
    assert_eq!(select(1, Policy::Interactive), Selection::Chosen(0));
    assert_eq!(select(1, Policy::First), Selection::Chosen(0));
    assert_eq!(select(3, Policy::First), Selection::Chosen(0));
    assert_eq!(select(3, Policy::Interactive), Selection::Prompt);
}

#[test]
fn answers_to_the_prompt() {
    assert!(matches!(resolve_choice(3, Ok(Some(2))), Ok(2)));
    assert!(matches!(resolve_choice(3, Ok(Some(3))), Err(SelectError::OutOfRange(3))));
    assert!(matches!(resolve_choice(3, Ok(None)), Err(SelectError::Cancelled)));
    match resolve_choice(3, Err("no terminal".to_string())) {
        Err(SelectError::InputError(m)) => assert_eq!(m, "no terminal"),
        _ => panic!("expected an input error"),
    }
}

#[test]
fn candidates_keep_source_order() {
    let day = ymd(2024, 1, 1);
    let now = at(day, hms(9, 30, 0));
    let first = vec![
        nine_to_ten(Frequency::Daily),
        meeting("later", Frequency::Daily, hms(11, 0, 0), hms(12, 0, 0)),
        meeting("b", Frequency::Weekly(vec![Weekday::Mon]), hms(9, 0, 0), hms(10, 0, 0)),
    ];
    let second = vec![
        meeting("c", Frequency::Once(day), hms(9, 15, 0), hms(9, 45, 0)),
        meeting("d", Frequency::Once(ymd(2024, 1, 2)), hms(9, 0, 0), hms(10, 0, 0)),
    ];
    let pool = active_candidates(vec![first, vec![], second], &now, 0, 0);
    let names: Vec<&str> = pool.iter().map(|m| m.name.as_str()).collect();
    assert_eq!(names, vec!["standup", "b", "c"]);
}

#[test]
fn no_sources_no_candidates() {
    let now = at(ymd(2024, 1, 1), hms(9, 30, 0));
    assert!(active_candidates(vec![], &now, 0, 0).is_empty());
    let pool = active_candidates(vec![vec![nine_to_ten(Frequency::Daily)]], &now, -1900, 0);
    assert!(pool.is_empty());
}

#[test]
fn now_is_a_valid_moment() {
    let now = LocalDateTime::now();
    assert!(Date::from_ymd(now.date.year, now.date.month, now.date.day).is_some());
    assert!(TimeOfDay::from_secs_nanos(now.time.secs, now.time.nanos).is_some());
    assert!(now.date.year >= 2020);
    let m = nine_to_ten(Frequency::Daily);
    let whole_day = m.is_now(i64::MAX / 2, i64::MIN / 2);
    assert!(whole_day);
}
