use time_ticker::display::{
    control_caption, decimal_string, format_remaining_time, format_short_time, task_caption,
};
use time_ticker::time::TimeSpan;

#[test]
fn formats_hours_minutes_and_seconds() {
    assert_eq!(format_remaining_time(TimeSpan::from_secs(3661)), "01:01:01");
    assert_eq!(format_remaining_time(TimeSpan::zero()), "00:00:00");
    assert_eq!(format_remaining_time(TimeSpan::from_secs(86399)), "23:59:59");
    assert_eq!(format_remaining_time(TimeSpan::from_secs(360000)), "100:00:00");
    assert_eq!(format_remaining_time(TimeSpan::from_secs(45 * 60)), "00:45:00");
}

#[test]
fn formatting_rounds_down_to_whole_seconds() {
    assert_eq!(format_remaining_time(TimeSpan::from_nanos(1_999_999_999)), "00:00:01");
    assert_eq!(format_remaining_time(TimeSpan::from_nanos(999_999_999)), "00:00:00");
}

#[test]
fn short_time_is_minutes_and_seconds() {
    assert_eq!(format_short_time(TimeSpan::from_secs(3661)), "01:01");
    assert_eq!(format_short_time(TimeSpan::from_secs(59 * 60 + 9)), "59:09");
    assert_eq!(format_short_time(TimeSpan::from_secs(360000 + 75)), "01:15");
}

#[test]
fn caption_joins_time_and_name() {
    assert_eq!(task_caption(TimeSpan::from_secs(1500), "学习"), "00:25:00#学习");
    assert_eq!(task_caption(TimeSpan::from_secs(5), ""), "00:00:05#");
}

#[test]
fn control_caption_follows_the_running_state() {
    assert_eq!(control_caption(true), "暂停");
    assert_eq!(control_caption(false), "开始");
}

#[test]
fn decimal_string_writes_a_number() {
    assert_eq!(decimal_string(0), "0");
    assert_eq!(decimal_string(9), "9");
    assert_eq!(decimal_string(10), "10");
    assert_eq!(decimal_string(1234567890), "1234567890");
    assert_eq!(decimal_string(u128::MAX), u128::MAX.to_string());
}
