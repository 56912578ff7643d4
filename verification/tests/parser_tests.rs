use time_ticker::error::Error;
use time_ticker::parser::{
    duration_from_tokens, next_occurrence, next_occurrence_at, occurrence_day, parse_time_input,
    parse_time_input_at, plan_time_input, split_parts, Plan,
};
use time_ticker::task::TaskType;
use time_ticker::time::{TimeSpan, Timestamp};

fn duration(secs: u64) -> TaskType {
    TaskType::Duration(TimeSpan::from_secs(secs))
}

fn token(amount: &str, unit: &str) -> Vec<Option<String>> {
    vec![
        Some(format!("{}{}", amount, unit)),
        Some(amount.to_string()),
        Some(unit.to_string()),
    ]
}

#[test]
fn parses_hours_and_minutes_with_a_label() {
    assert_eq!(parse_time_input("1h30m#学习"), Ok(("学习".to_string(), duration(5400))));
}

#[test]
fn parses_minutes_without_a_label() {
    assert_eq!(parse_time_input("25m"), Ok(("未命名".to_string(), duration(1500))));
}

#[test]
fn parses_a_deadline_at_its_next_occurrence() {
    let before = Timestamp::now();
    let (label, kind) = parse_time_input("@19:00#工作").unwrap();
    assert_eq!(label, "工作");
    match kind {
        TaskType::Deadline(at) => {
            let ahead = at.duration_since(before).unwrap();
            assert!(ahead.as_secs() <= 24 * 3600 + 3600);
        }
        TaskType::Duration(_) => panic!("a deadline was asked for"),
    }
}

#[test]
fn rejects_a_zero_duration() {
    assert_eq!(parse_time_input("0h0m#x"), Err(Error::ZeroDuration));
    assert_eq!(parse_time_input("0m"), Err(Error::ZeroDuration));
}

#[test]
fn rejects_a_time_without_tokens() {
    assert_eq!(parse_time_input("abc#x"), Err(Error::InvalidInputFormat));
    assert_eq!(parse_time_input("90"), Err(Error::InvalidInputFormat));
    assert_eq!(parse_time_input("5s"), Err(Error::InvalidInputFormat));
}

#[test]
fn rejects_a_missing_time() {
    assert_eq!(parse_time_input("#x"), Err(Error::MissingTimeInput));
    assert_eq!(parse_time_input(""), Err(Error::MissingTimeInput));
    assert_eq!(parse_time_input("   #x"), Err(Error::MissingTimeInput));
}

#[test]
fn rejects_a_bad_time_of_day() {
    assert_eq!(parse_time_input("@25:00#x"), Err(Error::InvalidInputFormat));
    assert_eq!(parse_time_input("@noon"), Err(Error::InvalidInputFormat));
    assert_eq!(parse_time_input("@"), Err(Error::InvalidInputFormat));
}

#[test]
fn rejects_an_input_of_several_lines() {
    assert_eq!(parse_time_input("1h\n2m"), Err(Error::InvalidInputFormat));
}

#[test]
fn rejects_an_amount_out_of_range() {
    assert_eq!(parse_time_input("99999999999999999999h"), Err(Error::ParseNumber));
    assert_eq!(parse_time_input("18446744073709551615h"), Err(Error::ParseNumber));
    assert_eq!(
        parse_time_input("18446744073709551615m18446744073709551615m"),
        Err(Error::ParseNumber)
    );
}

#[test]
fn rejects_digits_that_are_not_ascii() {
    assert_eq!(parse_time_input("\u{661}h"), Err(Error::ParseNumber));
    assert_eq!(parse_time_input("5m\u{662}h"), Err(Error::ParseNumber));
}

#[test]
fn trims_and_tolerates_spaces() {
    assert_eq!(parse_time_input("  1 h 30  m # read  "), Ok(("read".to_string(), duration(5400))));
    assert_eq!(parse_time_input("2h#a#b"), Ok(("a#b".to_string(), duration(7200))));
    assert_eq!(parse_time_input("1h#"), Ok(("未命名".to_string(), duration(3600))));
    assert_eq!(parse_time_input("1h# "), Ok(("".to_string(), duration(3600))));
    assert_eq!(parse_time_input("x5mx3m"), Ok(("未命名".to_string(), duration(480))));
}

#[test]
fn sums_tokens_handed_in() {
    assert_eq!(duration_from_tokens(&vec![token("1", "h"), token("30", "m")]), Ok(5400));
    assert_eq!(duration_from_tokens(&vec![token("+2", "m")]), Ok(120));
    assert_eq!(duration_from_tokens(&vec![]), Err(Error::InvalidInputFormat));
    assert_eq!(duration_from_tokens(&vec![token("0", "h")]), Err(Error::ZeroDuration));
}

#[test]
fn reports_the_first_bad_token() {
    assert_eq!(duration_from_tokens(&vec![token("1", "s")]), Err(Error::InvalidDurationUnit));
    assert_eq!(duration_from_tokens(&vec![token("x", "h")]), Err(Error::ParseNumber));
    assert_eq!(
        duration_from_tokens(&vec![token("1", "d"), token("x", "h")]),
        Err(Error::InvalidDurationUnit)
    );
    assert_eq!(
        duration_from_tokens(&vec![token("x", "d"), token("1", "h")]),
        Err(Error::ParseNumber)
    );
    assert_eq!(duration_from_tokens(&vec![vec![None, None, None]]), Err(Error::ParseNumber));
    assert_eq!(
        duration_from_tokens(&vec![vec![Some("1".to_string()), Some("1".to_string())]]),
        Err(Error::InvalidDurationUnit)
    );
    assert_eq!(
        duration_from_tokens(&vec![token("5124095576030432", "h")]),
        Err(Error::ParseNumber)
    );
    assert_eq!(
        duration_from_tokens(&vec![token("5124095576030431", "h")]),
        Ok(18446744073709551600)
    );
    assert_eq!(
        duration_from_tokens(&vec![token("5124095576030431", "h"), token("1", "m")]),
        Err(Error::ParseNumber)
    );
}

#[test]
fn rolls_over_to_tomorrow_once_the_time_has_passed() {
    assert_eq!(occurrence_day(738000, 68399, 0, 68400), Some(738000));
    assert_eq!(occurrence_day(738000, 68400, 0, 68400), Some(738000));
    assert_eq!(occurrence_day(738000, 68400, 1, 68400), Some(738001));
    assert_eq!(occurrence_day(738000, 68401, 0, 68400), Some(738001));
    assert_eq!(occurrence_day(i32::MAX, 68401, 0, 68400), None);
    assert_eq!(occurrence_day(i32::MAX, 0, 0, 68400), Some(i32::MAX));
}

#[test]
fn next_occurrence_lies_within_a_day() {
    let before = Timestamp::now();
    let at = next_occurrence(12 * 3600).unwrap();
    let ahead = at.duration_since(before).unwrap();
    assert!(ahead.as_secs() <= 25 * 3600);
    assert_eq!(next_occurrence(86_400), Err(Error::TimezoneConversion));
}

#[test]
fn next_occurrence_follows_the_reading_handed_in() {
    let now = Timestamp::from_unix_nanos(1_700_000_000 * 1_000_000_000 + 5);
    for target in [0, 1, 3600, 43_200, 68_400, 86_399] {
        let at = next_occurrence_at(now, target).unwrap();
        let ahead = at.duration_since(now).unwrap();
        assert!(ahead.as_nanos() > 0);
        assert!(ahead.as_secs() <= 25 * 3600);
        assert_eq!(at.offset.as_nanos() % 1_000_000_000, 0);
    }
    let first = next_occurrence_at(now, 600).unwrap();
    let second = next_occurrence_at(first, 600).unwrap();
    assert_eq!(first, second);
}

#[test]
fn next_occurrence_needs_a_clock_after_the_epoch() {
    assert_eq!(
        next_occurrence_at(Timestamp::before_unix_nanos(1), 3600),
        Err(Error::SystemTimeError)
    );
    let far = Timestamp::from_unix_nanos(253_402_300_800 * 1_000_000_000);
    assert_eq!(next_occurrence_at(far, 3600), Err(Error::TimezoneConversion));
    assert_eq!(
        parse_time_input_at("@19:00#x", Timestamp::before_unix_nanos(1)),
        Err(Error::SystemTimeError)
    );
    assert_eq!(
        parse_time_input_at("@19:61#x", Timestamp::before_unix_nanos(1)),
        Err(Error::InvalidInputFormat)
    );
}

#[test]
fn parse_at_a_reading_handed_in() {
    let now = Timestamp::from_unix_nanos(1_700_000_000 * 1_000_000_000);
    assert_eq!(parse_time_input_at("2h5m#x", now), Ok(("x".to_string(), duration(7500))));
    let (label, kind) = parse_time_input_at("@07:30", now).unwrap();
    assert_eq!(label, "未命名");
    match kind {
        TaskType::Deadline(at) => {
            assert!(at.duration_since(now).unwrap().as_secs() <= 25 * 3600);
            assert_eq!(at.offset.as_secs() % 60, 0);
        }
        TaskType::Duration(_) => panic!("a deadline was asked for"),
    }
}

#[test]
fn plans_before_any_clock_is_read() {
    assert_eq!(plan_time_input("1h30m#学习"), Ok(("学习".to_string(), Plan::Duration(5400))));
    assert_eq!(plan_time_input("@19:00#工作"), Ok(("工作".to_string(), Plan::Deadline(68_400))));
    assert_eq!(plan_time_input("@00:00"), Ok(("未命名".to_string(), Plan::Deadline(0))));
    assert_eq!(plan_time_input("@23:59#x"), Ok(("x".to_string(), Plan::Deadline(86_340))));
    assert_eq!(plan_time_input("@24:00#x"), Err(Error::InvalidInputFormat));
    assert_eq!(plan_time_input("@19:00:30#x"), Err(Error::InvalidInputFormat));
    assert_eq!(plan_time_input("#x"), Err(Error::MissingTimeInput));
    assert_eq!(plan_time_input("0h"), Err(Error::ZeroDuration));
}

#[test]
fn splits_the_groups_handed_in() {
    let groups = vec![
        Some(" 1h #  a ".to_string()),
        Some(" 1h ".to_string()),
        Some("  a ".to_string()),
    ];
    assert_eq!(split_parts(&groups), Ok(("1h".to_string(), "a".to_string())));
    let no_label = vec![Some("25m".to_string()), Some("25m".to_string()), None];
    assert_eq!(split_parts(&no_label), Ok(("25m".to_string(), "未命名".to_string())));
    let blank = vec![Some(" #x".to_string()), Some(" ".to_string()), Some("x".to_string())];
    assert_eq!(split_parts(&blank), Err(Error::MissingTimeInput));
    let absent = vec![Some("".to_string()), None, None];
    assert_eq!(split_parts(&absent), Err(Error::MissingTimeInput));
    assert_eq!(split_parts(&vec![]), Err(Error::MissingTimeInput));
    let short = vec![Some("5m".to_string()), Some("5m".to_string())];
    assert_eq!(split_parts(&short), Ok(("5m".to_string(), "未命名".to_string())));
}
