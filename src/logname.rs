//! Naming of exported log files after the time of export.

use vstd::prelude::*;
use crate::text::{push_char, push_str};

verus! {

/// A calendar date and time of day, as read from the clock.
#[derive(Clone, Copy, Debug, PartialEq, Eq, Structural)]
pub struct Timestamp {
    pub year: i32,
    pub month: u8,
    pub day: u8,
    pub hour: u8,
    pub minute: u8,
    pub second: u8,
}

impl Timestamp {
    /// Each field within its calendar range.
    pub open spec fn valid(self) -> bool {
        &&& 1 <= self.month <= 12
        &&& 1 <= self.day <= 31
        &&& self.hour < 24
        &&& self.minute < 60
        &&& self.second < 60
    }
}

/// Relies on `time::OffsetDateTime::now_local`: the current time in the
/// local offset, or nothing when that offset cannot be determined; its
/// fields are those of a valid date and time.
#[verifier::external_body]
fn local_now() -> (r: Option<Timestamp>)
    ensures
        r matches Some(t) ==> t.valid(),
{
    let t = time::OffsetDateTime::now_local().ok()?;
    Some(Timestamp {
        year: t.year(),
        month: u8::from(t.month()),
        day: t.day(),
        hour: t.hour(),
        minute: t.minute(),
        second: t.second(),
    })
}

/// Relies on `time::OffsetDateTime::now_utc`: the current time in UTC, whose
/// fields are those of a valid date and time.
#[verifier::external_body]
fn utc_now() -> (r: Timestamp)
    ensures
        r.valid(),
{
    let t = time::OffsetDateTime::now_utc();
    Timestamp {
        year: t.year(),
        month: u8::from(t.month()),
        day: t.day(),
        hour: t.hour(),
        minute: t.minute(),
        second: t.second(),
    }
}

/// The time now: local time where the local offset is known, else UTC.
pub fn current_timestamp() -> (r: Timestamp)
    ensures
        r.valid(),
{
    match local_now() {
        Some(t) => t,
        None => utc_now(),
    }
}

/// The decimal digit for `d`.
pub open spec fn digit_char(d: nat) -> char {
    ((d % 10) + 48) as char
}

/// The decimal digits of `n`, without leading zeros.
pub open spec fn decimal(n: nat) -> Seq<char>
    decreases n,
{
    if n < 10 {
        seq![digit_char(n)]
    } else {
        decimal(n / 10).push(digit_char(n % 10))
    }
}

/// `s` preceded by as many `0` as make it `width` long.
pub open spec fn zero_padded(s: Seq<char>, width: nat) -> Seq<char> {
    if s.len() < width {
        Seq::new((width - s.len()) as nat, |_i: int| '0') + s
    } else {
        s
    }
}

/// A year as at least four digits, with a leading `-` when negative.
pub open spec fn year_text(y: int) -> Seq<char> {
    if y < 0 {
        seq!['-'] + zero_padded(decimal((-y) as nat), 4)
    } else {
        zero_padded(decimal(y as nat), 4)
    }
}

/// Two digits of a field.
pub open spec fn two_digits(n: nat) -> Seq<char> {
    zero_padded(decimal(n), 2)
}

/// `YYYY-MM-DD-hh-mm-ss` for `t`.
pub open spec fn stamp_text(t: Timestamp) -> Seq<char> {
    year_text(t.year as int) + seq!['-'] + two_digits(t.month as nat) + seq!['-'] + two_digits(
        t.day as nat,
    ) + seq!['-'] + two_digits(t.hour as nat) + seq!['-'] + two_digits(t.minute as nat) + seq![
        '-',
    ] + two_digits(t.second as nat)
}

/// `linutil_log_<stamp>.log` for `t`.
pub open spec fn log_name_of(t: Timestamp) -> Seq<char> {
    "linutil_log_"@ + stamp_text(t) + ".log"@
}

fn digit_count(n: u32) -> (r: usize)
    ensures
        r == decimal(n as nat).len(),
        1 <= r,
        r as int <= n as int + 1,
    decreases n,
{
    if n < 10 {
        1
    } else {
        let k = digit_count(n / 10);
        k + 1
    }
}

fn push_decimal(s: &mut String, n: u32)
    ensures
        final(s)@ == old(s)@ + decimal(n as nat),
    decreases n,
{
    if n >= 10 {
        push_decimal(s, n / 10);
    }
    let d = ((n % 10) as u8 + 48u8) as char;
    assert(d == digit_char(n as nat));
    push_char(s, d);
    proof {
        if n >= 10 {
            assert(final(s)@ =~= old(s)@ + decimal(n as nat)) by {
                assert(decimal(n as nat) == decimal((n / 10) as nat).push(digit_char((n % 10) as nat)));
            }
        }
    }
}

fn push_padded(s: &mut String, n: u32, width: usize)
    requires
        width <= 16,
    ensures
        final(s)@ == old(s)@ + zero_padded(decimal(n as nat), width as nat),
{
    let ghost start = s@;
    let count = digit_count(n);
    let mut k: usize = count;
    while k < width
        invariant
            count <= k,
            count == decimal(n as nat).len(),
            count < width ==> k <= width,
            count >= width ==> k == count,
            s@ == start + Seq::new((k - count) as nat, |_i: int| '0'),
        decreases width - k,
    {
        push_char(s, '0');
        assert(s@ =~= start + Seq::new((k + 1 - count) as nat, |_i: int| '0'));
        k = k + 1;
    }
    let ghost zeros = s@;
    push_decimal(s, n);
    proof {
        if count < width {
            assert(k == width);
            assert(s@ =~= start + zero_padded(decimal(n as nat), width as nat));
        } else {
            assert(Seq::new((k - count) as nat, |_i: int| '0') =~= Seq::<char>::empty());
            assert(zeros =~= start);
            assert(s@ =~= start + zero_padded(decimal(n as nat), width as nat));
        }
    }
}

fn push_field(s: &mut String, n: u8)
    ensures
        final(s)@ == old(s)@ + seq!['-'] + two_digits(n as nat),
{
    push_char(s, '-');
    push_padded(s, n as u32, 2);
}

/// `YYYY-MM-DD-hh-mm-ss` for `t`.
pub fn stamp(t: Timestamp) -> (r: String)
    ensures
        r@ == stamp_text(t),
{
    let mut s = String::new();
    if t.year < 0 {
        push_char(&mut s, '-');
        let magnitude = (-(t.year as i64)) as u32;
        push_padded(&mut s, magnitude, 4);
    } else {
        push_padded(&mut s, t.year as u32, 4);
    }
    assert(s@ =~= year_text(t.year as int));
    push_field(&mut s, t.month);
    push_field(&mut s, t.day);
    push_field(&mut s, t.hour);
    push_field(&mut s, t.minute);
    push_field(&mut s, t.second);
    s
}

/// The name of the log file exported at time `t`.
pub fn log_file_name(t: Timestamp) -> (r: String)
    ensures
        r@ == log_name_of(t),
{
    let mut s = String::new();
    push_str(&mut s, "linutil_log_");
    let st = stamp(t);
    push_str(&mut s, st.as_str());
    push_str(&mut s, ".log");
    assert(s@ =~= log_name_of(t));
    s
}

/// The name of a log file exported now.
pub fn log_file_name_now() -> (r: String)
    ensures
        exists|t: Timestamp| t.valid() && r@ == log_name_of(t),
{
    let t = current_timestamp();
    log_file_name(t)
}

} // verus!
