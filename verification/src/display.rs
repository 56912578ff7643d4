//! The texts a task is shown with: decimal numbers, the clock face of the
//! time left, captions and titles.

use vstd::prelude::*;
use vstd::string::StringExecFns;
use crate::text::{all_digits, digit_value, digits_value, is_digit};
use crate::time::{TimeSpan, NANOS_PER_SEC};

verus! {

/// The character of a decimal digit.
pub open spec fn digit_char(d: nat) -> char {
    if d == 0 {
        '0'
    } else if d == 1 {
        '1'
    } else if d == 2 {
        '2'
    } else if d == 3 {
        '3'
    } else if d == 4 {
        '4'
    } else if d == 5 {
        '5'
    } else if d == 6 {
        '6'
    } else if d == 7 {
        '7'
    } else if d == 8 {
        '8'
    } else {
        '9'
    }
}

/// A number in decimal, without leading zeros.
pub open spec fn decimal_digits(n: nat) -> Seq<char>
    decreases n,
{
    if n < 10 {
        seq![digit_char(n)]
    } else {
        decimal_digits(n / 10).push(digit_char(n % 10))
    }
}

/// A number in decimal, with a leading zero where it has one digit.
pub open spec fn two_digits(n: nat) -> Seq<char> {
    if n < 10 {
        seq!['0', digit_char(n)]
    } else {
        decimal_digits(n)
    }
}

/// The clock face of a number of seconds: hours, minutes and seconds, each
/// of two digits at least, with colons between.
pub open spec fn clock_face(secs: nat) -> Seq<char> {
    two_digits(secs / 3600) + seq![':'] + two_digits((secs % 3600) / 60) + seq![':'] + two_digits(
        secs % 60,
    )
}

/// The minutes and seconds of a clock face.
pub open spec fn short_face(secs: nat) -> Seq<char> {
    two_digits((secs % 3600) / 60) + seq![':'] + two_digits(secs % 60)
}

/// The whole seconds of a span of nanoseconds.
pub open spec fn whole_secs(nanos: nat) -> nat {
    nanos / (NANOS_PER_SEC as nat)
}

/// The decimal text of a number reads back as that number.
pub proof fn lemma_decimal_digits_read_back(n: nat)
    ensures
        decimal_digits(n).len() > 0,
        all_digits(decimal_digits(n)),
        digits_value(decimal_digits(n)) == n,
        is_digit(decimal_digits(n)[0]),
    decreases n,
{
    let s = decimal_digits(n);
    if n < 10 {
        assert(s.drop_last() =~= Seq::<char>::empty());
        assert(digits_value(s.drop_last()) == 0);
        assert(digit_value(digit_char(n)) == n);
    } else {
        lemma_decimal_digits_read_back(n / 10);
        assert(s.drop_last() =~= decimal_digits(n / 10));
        assert(digit_value(digit_char(n % 10)) == n % 10);
        assert(s[0] == decimal_digits(n / 10)[0]);
        assert forall|i: int| 0 <= i < s.len() implies is_digit(#[trigger] s[i]) by {
            if i < s.len() - 1 {
                assert(s[i] == decimal_digits(n / 10)[i]);
            }
        }
    }
}

/// The text of one decimal digit.
fn digit_text(d: u8) -> (r: &'static str)
    requires
        d < 10,
    ensures
        r@ == seq![digit_char(d as nat)],
{
    proof {
        reveal_strlit("0");
        reveal_strlit("1");
        reveal_strlit("2");
        reveal_strlit("3");
        reveal_strlit("4");
        reveal_strlit("5");
        reveal_strlit("6");
        reveal_strlit("7");
        reveal_strlit("8");
        reveal_strlit("9");
    }
    let r = if d == 0 {
        "0"
    } else if d == 1 {
        "1"
    } else if d == 2 {
        "2"
    } else if d == 3 {
        "3"
    } else if d == 4 {
        "4"
    } else if d == 5 {
        "5"
    } else if d == 6 {
        "6"
    } else if d == 7 {
        "7"
    } else if d == 8 {
        "8"
    } else {
        "9"
    };
    assert(r@ =~= seq![digit_char(d as nat)]);
    r
}

/// Appends a number in decimal.
pub fn push_decimal(out: &mut String, n: u128)
    ensures
        final(out)@ == old(out)@ + decimal_digits(n as nat),
    decreases n,
{
    if n >= 10 {
        push_decimal(out, n / 10);
    }
    let d: u8 = (n % 10) as u8;
    out.append(digit_text(d));
    assert(out@ =~= old(out)@ + decimal_digits(n as nat));
}

/// Appends a number in decimal, with a leading zero where it has one digit.
pub fn push_two_digits(out: &mut String, n: u128)
    ensures
        final(out)@ == old(out)@ + two_digits(n as nat),
{
    if n < 10 {
        out.append("0");
        proof {
            reveal_strlit("0");
        }
    }
    push_decimal(out, n);
    assert(out@ =~= old(out)@ + two_digits(n as nat));
}

/// A number in decimal.
pub fn decimal_string(n: u128) -> (r: String)
    ensures
        r@ == decimal_digits(n as nat),
{
    let mut out = String::new();
    push_decimal(&mut out, n);
    assert(out@ =~= decimal_digits(n as nat));
    out
}

/// The time left as `HH:MM:SS`: whole hours, then the minutes of the hour and
/// the seconds of the minute, rounded down, each of two digits at least.
pub fn format_remaining_time(duration: TimeSpan) -> (r: String)
    ensures
        r@ == clock_face(whole_secs(duration@)),
{
    let total_seconds: u128 = duration.as_secs();
    let hours: u128 = total_seconds / 3600;
    let minutes: u128 = (total_seconds % 3600) / 60;
    let seconds: u128 = total_seconds % 60;
    let mut out = String::new();
    proof {
        reveal_strlit(":");
    }
    push_two_digits(&mut out, hours);
    out.append(":");
    push_two_digits(&mut out, minutes);
    out.append(":");
    push_two_digits(&mut out, seconds);
    assert(out@ =~= clock_face(whole_secs(duration@)));
    out
}

/// The time left as `MM:SS`: the minutes of the hour and the seconds of the
/// minute, as on the clock face.
pub fn format_short_time(duration: TimeSpan) -> (r: String)
    ensures
        r@ == short_face(whole_secs(duration@)),
{
    let total_seconds: u128 = duration.as_secs();
    let minutes: u128 = (total_seconds % 3600) / 60;
    let seconds: u128 = total_seconds % 60;
    let mut out = String::new();
    proof {
        reveal_strlit(":");
    }
    push_two_digits(&mut out, minutes);
    out.append(":");
    push_two_digits(&mut out, seconds);
    assert(out@ =~= short_face(whole_secs(duration@)));
    out
}

/// The caption of a task: the clock face of the time left, `#`, the name.
pub fn task_caption(duration: TimeSpan, name: &str) -> (r: String)
    ensures
        r@ == clock_face(whole_secs(duration@)) + seq!['#'] + name@,
{
    let mut out = format_remaining_time(duration);
    proof {
        reveal_strlit("#");
    }
    out.append("#");
    out.append(name);
    assert(out@ =~= clock_face(whole_secs(duration@)) + seq!['#'] + name@);
    out
}

/// The caption of the button that starts or pauses a task.
pub fn control_caption(running: bool) -> (r: &'static str)
    ensures
        r@ == if running {
            "暂停"@
        } else {
            "开始"@
        },
{
    if running {
        "暂停"
    } else {
        "开始"
    }
}

/// The short face is the clock face behind its first colon.
pub proof fn lemma_short_face_ends_clock_face(secs: nat)
    ensures
        clock_face(secs) == two_digits(secs / 3600) + seq![':'] + short_face(secs),
{
    assert(clock_face(secs) =~= two_digits(secs / 3600) + seq![':'] + short_face(secs));
}

} // verus!
