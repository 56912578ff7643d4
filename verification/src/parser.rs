//! The time-input grammar: `1h30m#label` for a duration, `@19:00#label` for a
//! deadline at the next occurrence of a local time of day.

use vstd::prelude::*;
use chrono::{Datelike, Timelike};
use crate::error::{system_time_to_duration, Error, Result};
use crate::pattern::{
    all_matches, first_match, group_texts, match_texts, regex_accepts, regex_all_matches,
    regex_first_match,
};
use crate::task::TaskType;
use crate::text::{parse_u64, same_text, skip_chars, trim, trimmed, unsigned_decimal};
use crate::time::{TimeSpan, Timestamp, NANOS_PER_SEC};

verus! {

/// The seconds after midnight of the time of day that chrono's
/// `NaiveTime::parse_from_str` reads from the text under the format; `None`
/// where it rejects the text.
pub uninterp spec fn clock_time_seconds(text: Seq<char>, format: Seq<char>) -> Option<u32>;

/// Reads a time of day with chrono's `NaiveTime::parse_from_str` and hands
/// out its seconds after midnight. Trusted: the result is the one the name
/// stands for.
#[verifier::external_body]
fn clock_time(text: &str, format: &str) -> (r: Option<u32>)
    ensures
        r == clock_time_seconds(text@, format@),
{
    chrono::NaiveTime::parse_from_str(text, format).ok().map(|t| t.num_seconds_from_midnight())
}

/// The local date and time at `secs` seconds and `nanos` nanoseconds after
/// the UNIX epoch, through chrono's `DateTime::from_timestamp`,
/// `with_timezone` and `naive_local`: the day counted from the start of the
/// common era, the seconds after midnight and the nanoseconds after that
/// second; `None` where chrono holds no such instant. The bound on `secs`
/// keeps the local time within the dates chrono can hold. The result depends
/// on the time zone, so nothing is claimed of it.
#[verifier::external_body]
fn local_time_of(secs: i64, nanos: u32) -> Option<(i32, u32, u32)>
    requires
        0 <= secs <= MAX_CLOCK_SECS,
{
    let utc = chrono::DateTime::from_timestamp(secs, nanos)?;
    let local = utc.with_timezone(&chrono::Local).naive_local();
    Some((local.num_days_from_ce(), local.num_seconds_from_midnight(), local.nanosecond()))
}

/// The instant at which the local time zone shows the given day and seconds
/// after midnight, through chrono's `NaiveDateTime::and_local_timezone` and
/// `single`; `None` where chrono holds no such date or time, or where the
/// zone shows it never or twice. The bound on `day` keeps the instant within
/// the dates chrono can hold. The result depends on the time zone, so nothing
/// is claimed of it.
#[verifier::external_body]
fn local_instant(day: i32, secs: u32) -> Option<std::time::SystemTime>
    requires
        0 <= day <= MAX_LOCAL_DAY,
{
    let date = chrono::NaiveDate::from_num_days_from_ce_opt(day)?;
    let time = chrono::NaiveTime::from_num_seconds_from_midnight_opt(secs, 0)?;
    date.and_time(time).and_local_timezone(chrono::Local).single().map(|t| t.into())
}

/// The last second of the year 9999, counted from the UNIX epoch: the latest
/// clock reading for which a local time is asked.
pub const MAX_CLOCK_SECS: i64 = 253_402_300_799;

/// The latest day, counted from the start of the common era, on which a
/// deadline is placed: past the first day of the year 10000.
pub const MAX_LOCAL_DAY: i32 = 3_652_425;

/// What a parsed input asks for, before any clock is read.
#[derive(Clone, Copy, Debug, PartialEq, Eq, Structural)]
pub enum Plan {
    /// A countdown of so many whole seconds.
    Duration(u64),
    /// The next time the local clock shows so many seconds after midnight.
    Deadline(u32),
}

/// The pattern that parts the time from the label.
pub open spec fn split_pattern() -> Seq<char> {
    "^(.*?)(?:#(.+))?$"@
}

/// The pattern of one amount with its unit.
pub open spec fn token_pattern() -> Seq<char> {
    "(\\d+)\\s*([hm])"@
}

/// The format of a deadline's time of day.
pub open spec fn clock_format() -> Seq<char> {
    "%H:%M"@
}

/// The label of a task that was given none.
pub open spec fn default_label() -> Seq<char> {
    "未命名"@
}

/// The text of group `i`, if the match has such a group and it took part.
pub open spec fn group(groups: Seq<Option<Seq<char>>>, i: int) -> Option<Seq<char>> {
    if 0 <= i < groups.len() {
        groups[i]
    } else {
        None
    }
}

/// The trimmed time part of a split input, if it is not empty.
pub open spec fn time_part(groups: Seq<Option<Seq<char>>>) -> Option<Seq<char>> {
    match group(groups, 1) {
        Some(t) => if trimmed(t).len() > 0 {
            Some(trimmed(t))
        } else {
            None
        },
        None => None,
    }
}

/// The label of a split input: the trimmed label part, or the default.
pub open spec fn label_part(groups: Seq<Option<Seq<char>>>) -> Seq<char> {
    match group(groups, 2) {
        Some(l) => trimmed(l),
        None => default_label(),
    }
}

/// The seconds of one amount with its unit: the amount must be an unsigned
/// decimal, the unit `h` or `m`.
pub open spec fn token_seconds(token: Seq<Option<Seq<char>>>) -> Result<nat> {
    let amount = match group(token, 1) {
        Some(a) => a,
        None => Seq::<char>::empty(),
    };
    let unit = match group(token, 2) {
        Some(u) => u,
        None => Seq::<char>::empty(),
    };
    match unsigned_decimal(amount, u64::MAX as nat) {
        None => Err(Error::ParseNumber),
        Some(v) => if unit == "h"@ {
            Ok(v * 3600)
        } else if unit == "m"@ {
            Ok(v * 60)
        } else {
            Err(Error::InvalidDurationUnit)
        },
    }
}

/// The sum of the tokens in seconds. The first token in error decides the
/// error; a sum past `u64::MAX` is `ParseNumber`.
pub open spec fn tokens_total(tokens: Seq<Seq<Option<Seq<char>>>>) -> Result<nat>
    decreases tokens.len(),
{
    if tokens.len() == 0 {
        Ok(0)
    } else {
        match tokens_total(tokens.drop_last()) {
            Err(e) => Err(e),
            Ok(sum) => match token_seconds(tokens.last()) {
                Err(e) => Err(e),
                Ok(s) => if sum + s > u64::MAX {
                    Err(Error::ParseNumber)
                } else {
                    Ok(sum + s)
                },
            },
        }
    }
}

/// The duration that the tokens of a time part write, in seconds: there must
/// be a token, and the sum must not be zero.
pub open spec fn duration_of(tokens: Seq<Seq<Option<Seq<char>>>>) -> Result<nat> {
    if tokens.len() == 0 {
        Err(Error::InvalidInputFormat)
    } else {
        match tokens_total(tokens) {
            Err(e) => Err(e),
            Ok(total) => if total == 0 {
                Err(Error::ZeroDuration)
            } else {
                Ok(total)
            },
        }
    }
}

/// What a time part asks for.
pub open spec fn planned_time(time: Seq<char>) -> Result<Plan>
    recommends
        time.len() > 0,
{
    if time[0] == '@' {
        match clock_time_seconds(time.skip(1), clock_format()) {
            None => Err(Error::InvalidInputFormat),
            Some(secs) => Ok(Plan::Deadline(secs)),
        }
    } else if !regex_accepts(token_pattern()) {
        Err(Error::RegexCompile)
    } else {
        match duration_of(regex_all_matches(token_pattern(), time)) {
            Err(e) => Err(e),
            Ok(secs) => Ok(Plan::Duration(secs as u64)),
        }
    }
}

/// The label and the plan that an input stands for, or the error it earns.
pub open spec fn planned(input: Seq<char>) -> Result<(Seq<char>, Plan)> {
    if !regex_accepts(split_pattern()) {
        Err(Error::RegexCompile)
    } else {
        match regex_first_match(split_pattern(), input) {
            None => Err(Error::InvalidInputFormat),
            Some(groups) => match time_part(groups) {
                None => Err(Error::MissingTimeInput),
                Some(time) => match planned_time(time) {
                    Err(e) => Err(e),
                    Ok(plan) => Ok((label_part(groups), plan)),
                },
            },
        }
    }
}

/// The text of group `i` of a match, if there is such a group and it took part.
fn group_at(groups: &Vec<Option<String>>, i: usize) -> (r: Option<&str>)
    ensures
        match group(group_texts(groups@), i as int) {
            Some(t) => r is Some && r->Some_0@ == t,
            None => r is None,
        },
{
    if i < groups.len() {
        match &groups[i] {
            Some(s) => Some(s.as_str()),
            None => None,
        }
    } else {
        None
    }
}

/// The seconds of one amount with its unit, or `None` where they pass `u64::MAX`.
fn seconds_of_token(token: &Vec<Option<String>>) -> (r: Result<Option<u64>>)
    ensures
        match token_seconds(group_texts(token@)) {
            Err(e) => r == Err::<Option<u64>, Error>(e),
            Ok(s) => r is Ok && (s <= u64::MAX ==> r->Ok_0 == Some(s as u64)) && (s > u64::MAX
                ==> r->Ok_0 is None),
        },
{
    let amount: &str = match group_at(token, 1) {
        Some(a) => a,
        None => "",
    };
    let unit: &str = match group_at(token, 2) {
        Some(u) => u,
        None => "",
    };
    proof {
        reveal_strlit("");
        assert(""@ =~= Seq::<char>::empty());
    }
    let value: u64 = match parse_u64(amount) {
        Some(v) => v,
        None => { return Err(Error::ParseNumber); },
    };
    let factor: u64 = if same_text(unit, "h") {
        3600
    } else if same_text(unit, "m") {
        60
    } else {
        return Err(Error::InvalidDurationUnit);
    };
    if value > u64::MAX / factor {
        assert(value * factor > u64::MAX) by (nonlinear_arith)
            requires
                value > u64::MAX / factor,
                factor == 3600 || factor == 60,
        ;
        Ok(None)
    } else {
        assert(value * factor <= u64::MAX) by (nonlinear_arith)
            requires
                value <= u64::MAX / factor,
                factor == 3600 || factor == 60,
        ;
        Ok(Some(value * factor))
    }
}

/// The duration in whole seconds that the tokens of a time part write. Fails
/// with `InvalidInputFormat` where there is no token, with the error of the
/// first bad token, with `ParseNumber` where the sum passes `u64::MAX`, and
/// with `ZeroDuration` where it is zero.
pub fn duration_from_tokens(tokens: &Vec<Vec<Option<String>>>) -> (r: Result<u64>)
    ensures
        match duration_of(match_texts(tokens@)) {
            Ok(secs) => r == Ok::<u64, Error>(secs as u64),
            Err(e) => r == Err::<u64, Error>(e),
        },
{
    let ghost texts = match_texts(tokens@);
    if tokens.len() == 0 {
        return Err(Error::InvalidInputFormat);
    }
    let mut total: u64 = 0;
    let mut i: usize = 0;
    while i < tokens.len()
        invariant
            i <= tokens.len(),
            texts == match_texts(tokens@),
            tokens_total(texts.subrange(0, i as int)) == Ok::<nat, Error>(total as nat),
        decreases tokens.len() - i,
    {
        let ghost next = texts.subrange(0, i + 1);
        assert(next.drop_last() == texts.subrange(0, i as int));
        assert(next.last() == group_texts(tokens@[i as int]@));
        proof {
            lemma_total_error_stays(texts, i + 1);
        }
        match seconds_of_token(&tokens[i]) {
            Err(e) => { return Err(e); },
            Ok(None) => { return Err(Error::ParseNumber); },
            Ok(Some(secs)) => {
                if secs > u64::MAX - total {
                    return Err(Error::ParseNumber);
                }
                total = total + secs;
            },
        }
        i += 1;
    }
    assert(texts.subrange(0, tokens.len() as int) == texts);
    if total == 0 {
        Err(Error::ZeroDuration)
    } else {
        Ok(total)
    }
}

/// Once a prefix of the tokens is in error, the whole run has that error.
proof fn lemma_total_error_stays(tokens: Seq<Seq<Option<Seq<char>>>>, k: int)
    requires
        0 <= k <= tokens.len(),
    ensures
        tokens_total(tokens.subrange(0, k)) is Err ==> tokens_total(tokens) == tokens_total(
            tokens.subrange(0, k),
        ),
    decreases tokens.len(),
{
    if k == tokens.len() {
        assert(tokens.subrange(0, k) == tokens);
    } else {
        assert(tokens.drop_last().subrange(0, k) == tokens.subrange(0, k));
        lemma_total_error_stays(tokens.drop_last(), k);
    }
}

/// Whether a time of day has passed: `target` seconds after midnight lie
/// before the local time of `now_secs` seconds and `now_nanos` nanoseconds.
pub open spec fn has_passed(target: u32, now_secs: u32, now_nanos: u32) -> bool {
    target < now_secs || (target == now_secs && now_nanos > 0)
}

/// The day on which the time of day next occurs: today, or tomorrow where it
/// has passed today. `None` where tomorrow cannot be counted.
pub fn occurrence_day(today: i32, now_secs: u32, now_nanos: u32, target: u32) -> (r: Option<i32>)
    ensures
        !has_passed(target, now_secs, now_nanos) ==> r == Some(today),
        has_passed(target, now_secs, now_nanos) && today < i32::MAX ==> r == Some(
            (today + 1) as i32,
        ),
        has_passed(target, now_secs, now_nanos) && today == i32::MAX ==> r is None,
{
    if target < now_secs || (target == now_secs && now_nanos > 0) {
        if today < i32::MAX {
            Some(today + 1)
        } else {
            None
        }
    } else {
        Some(today)
    }
}

/// The deadline at the next occurrence, after clock reading `now`, of a
/// local time of day given as seconds after midnight. A reading before the
/// epoch is `SystemTimeError`; where the time zone names no single instant
/// for the reading or for the deadline, the error is `TimezoneConversion`.
pub fn next_occurrence_at(now: Timestamp, target: u32) -> (r: Result<Timestamp>)
    ensures
        now@ < 0 <==> r == Err::<Timestamp, Error>(Error::SystemTimeError),
        now@ >= 0 && now@ / (NANOS_PER_SEC as int) > MAX_CLOCK_SECS ==> r == Err::<Timestamp, Error>(
            Error::TimezoneConversion,
        ),
        r is Err ==> r->Err_0 == Error::SystemTimeError || r->Err_0 == Error::TimezoneConversion,
{
    let since: TimeSpan = match system_time_to_duration(now) {
        Ok(since) => since,
        Err(e) => { return Err(e); },
    };
    let whole: u128 = since.as_secs();
    if whole > MAX_CLOCK_SECS as u128 {
        return Err(Error::TimezoneConversion);
    }
    let secs: i64 = whole as i64;
    let nanos: u32 = (since.as_nanos() % NANOS_PER_SEC) as u32;
    let (today, now_secs, now_nanos) = match local_time_of(secs, nanos) {
        Some(local) => local,
        None => { return Err(Error::TimezoneConversion); },
    };
    match occurrence_day(today, now_secs, now_nanos, target) {
        None => Err(Error::TimezoneConversion),
        Some(day) => {
            if day < 0 || day > MAX_LOCAL_DAY {
                return Err(Error::TimezoneConversion);
            }
            match local_instant(day, target) {
                Some(instant) => Ok(Timestamp::from_system_time(instant)),
                None => Err(Error::TimezoneConversion),
            }
        },
    }
}

/// The deadline at the next occurrence of a local time of day, after one
/// reading of the system clock.
pub fn next_occurrence(target: u32) -> (r: Result<Timestamp>)
    ensures
        r is Err ==> r->Err_0 == Error::SystemTimeError || r->Err_0 == Error::TimezoneConversion,
{
    next_occurrence_at(Timestamp::now(), target)
}

/// What a trimmed, non-empty time part asks for.
fn plan_time_part(time: &str) -> (r: Result<Plan>)
    requires
        time@.len() > 0,
    ensures
        r == planned_time(time@),
{
    if time.get_char(0) == '@' {
        match clock_time(skip_chars(time, 1), "%H:%M") {
            None => Err(Error::InvalidInputFormat),
            Some(secs) => Ok(Plan::Deadline(secs)),
        }
    } else {
        match all_matches("(\\d+)\\s*([hm])", time) {
            None => Err(Error::RegexCompile),
            Some(tokens) => match duration_from_tokens(&tokens) {
                Err(e) => Err(e),
                Ok(secs) => Ok(Plan::Duration(secs)),
            },
        }
    }
}

/// The trimmed time part and the label of an input, from the capture groups
/// that the split pattern found in it. Fails with `MissingTimeInput` where
/// the time part is absent or, once trimmed, empty.
pub fn split_parts(groups: &Vec<Option<String>>) -> (r: Result<(String, String)>)
    ensures
        match time_part(group_texts(groups@)) {
            Some(time) => r is Ok && r->Ok_0.0@ == time && r->Ok_0.1@ == label_part(
                group_texts(groups@),
            ),
            None => r is Err && r->Err_0 == Error::MissingTimeInput,
        },
{
    let time: &str = match group_at(groups, 1) {
        Some(t) => trim(t),
        None => { return Err(Error::MissingTimeInput); },
    };
    if time.unicode_len() == 0 {
        return Err(Error::MissingTimeInput);
    }
    let label: String = match group_at(groups, 2) {
        Some(l) => trim(l).to_owned(),
        None => "未命名".to_owned(),
    };
    Ok((time.to_owned(), label))
}

/// The label and the plan that an input stands for, before any clock is
/// read: exactly what `planned` gives.
pub fn plan_time_input(input: &str) -> (r: Result<(String, Plan)>)
    ensures
        match planned(input@) {
            Err(e) => r is Err && r->Err_0 == e,
            Ok((label, plan)) => r is Ok && r->Ok_0.0@ == label && r->Ok_0.1 == plan,
        },
{
    let groups = match first_match("^(.*?)(?:#(.+))?$", input) {
        None => { return Err(Error::RegexCompile); },
        Some(None) => { return Err(Error::InvalidInputFormat); },
        Some(Some(groups)) => groups,
    };
    let (time, label) = match split_parts(&groups) {
        Ok(parts) => parts,
        Err(e) => { return Err(e); },
    };
    match plan_time_part(time.as_str()) {
        Err(e) => Err(e),
        Ok(plan) => Ok((label, plan)),
    }
}

/// Reads a time input as of clock reading `now`. The result is the one
/// `planned` gives: its error, or the label with a duration of the planned
/// seconds. For a planned deadline the instant is the next local occurrence
/// after `now`, and the call may still fail as `next_occurrence_at` does.
pub fn parse_time_input_at(input: &str, now: Timestamp) -> (r: Result<(String, TaskType)>)
    ensures
        match planned(input@) {
            Err(e) => r is Err && r->Err_0 == e,
            Ok((label, Plan::Duration(secs))) => r is Ok && r->Ok_0.0@ == label && r->Ok_0.1
                == TaskType::Duration(TimeSpan { nanos: (secs * NANOS_PER_SEC) as u128 }),
            Ok((label, Plan::Deadline(_))) => (r is Ok && r->Ok_0.0@ == label && r->Ok_0.1 is Deadline
                && now@ >= 0) || (r is Err && r->Err_0 == Error::TimezoneConversion && now@ >= 0) || (
            r is Err && r->Err_0 == Error::SystemTimeError && now@ < 0),
        },
{
    match plan_time_input(input) {
        Err(e) => Err(e),
        Ok((label, Plan::Duration(secs))) => Ok((label, TaskType::Duration(TimeSpan::from_secs(secs)))),
        Ok((label, Plan::Deadline(target))) => match next_occurrence_at(now, target) {
            Ok(deadline) => Ok((label, TaskType::Deadline(deadline))),
            Err(e) => Err(e),
        },
    }
}

/// Reads a time input. The result is the one `planned` gives: its error, or
/// the label with a duration of the planned seconds. For a planned deadline
/// the instant is the next local occurrence after one reading of the system
/// clock, and the call may still fail with `TimezoneConversion` or, for a
/// clock before the epoch, with `SystemTimeError`.
pub fn parse_time_input(input: &str) -> (r: Result<(String, TaskType)>)
    ensures
        match planned(input@) {
            Err(e) => r is Err && r->Err_0 == e,
            Ok((label, Plan::Duration(secs))) => r is Ok && r->Ok_0.0@ == label && r->Ok_0.1
                == TaskType::Duration(TimeSpan { nanos: (secs * NANOS_PER_SEC) as u128 }),
            Ok((label, Plan::Deadline(_))) => (r is Ok && r->Ok_0.0@ == label && r->Ok_0.1 is Deadline)
                || (r is Err && (r->Err_0 == Error::TimezoneConversion || r->Err_0
                == Error::SystemTimeError)),
        },
{
    parse_time_input_at(input, Timestamp::now())
}

} // verus!
