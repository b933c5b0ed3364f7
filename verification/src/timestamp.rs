use chrono::Datelike;
use chrono::Timelike;
use vstd::prelude::*;

verus! {

/// A UTC wall-clock instant at one-second resolution, held as plain calendar
/// and clock fields so that filename derivation can be reasoned about.
pub struct UtcTimestamp {
    pub year: u16,
    pub month: u8,
    pub day: u8,
    pub hour: u8,
    pub minute: u8,
    pub second: u8,
}

impl UtcTimestamp {
    /// Every field fits the calendar/clock range the compact formatter
    /// relies on; the year must have at most four decimal digits.
    pub open spec fn wf(self) -> bool {
        self.year <= 9999 && 1 <= self.month <= 12 && 1 <= self.day <= 31 && self.hour <= 23
            && self.minute <= 59 && self.second <= 59
    }
}

/// The ASCII digit (48 is `0`) for `n`'s low decimal digit.
pub open spec fn ascii_digit(n: int) -> u8 {
    (48 + (n % 10)) as u8
}

/// `n` as two zero-padded ASCII decimal digits (for `n < 100`).
pub open spec fn two_digits(n: int) -> Seq<u8> {
    seq![ascii_digit(n / 10), ascii_digit(n)]
}

/// `n` as four zero-padded ASCII decimal digits (for `n < 10000`).
pub open spec fn four_digits(n: int) -> Seq<u8> {
    seq![ascii_digit(n / 1000), ascii_digit(n / 100), ascii_digit(n / 10), ascii_digit(n)]
}

/// The `YYYYMMDD_HHMMSS` rendering of a timestamp (95 is `_`).
pub open spec fn compact_form(t: UtcTimestamp) -> Seq<u8> {
    four_digits(t.year as int) + two_digits(t.month as int) + two_digits(t.day as int)
        + seq![95u8] + two_digits(t.hour as int) + two_digits(t.minute as int) + two_digits(
        t.second as int,
    )
}

/// Appends the two zero-padded decimal digits of `n`.
fn push_two_digits(v: &mut Vec<u8>, n: u8)
    requires
        n < 100,
    ensures
        final(v)@ == old(v)@ + two_digits(n as int),
{
    v.push(48 + n / 10);
    v.push(48 + n % 10);
    proof {
        assert((n as int / 10) % 10 == n as int / 10);
        assert(v@ =~= old(v)@ + two_digits(n as int));
    }
}

/// Appends the four zero-padded decimal digits of `n`.
fn push_four_digits(v: &mut Vec<u8>, n: u16)
    requires
        n < 10000,
    ensures
        final(v)@ == old(v)@ + four_digits(n as int),
{
    let d0: u16 = (n / 1000) % 10;
    let d1: u16 = (n / 100) % 10;
    let d2: u16 = (n / 10) % 10;
    let d3: u16 = n % 10;
    v.push(48 + d0 as u8);
    v.push(48 + d1 as u8);
    v.push(48 + d2 as u8);
    v.push(48 + d3 as u8);
    proof {
        assert((n as int / 1000) % 10 == n as int / 1000);
        assert(v@ =~= old(v)@ + four_digits(n as int));
    }
}

impl UtcTimestamp {
    /// Renders the timestamp as `YYYYMMDD_HHMMSS`, each field zero-padded.
    pub fn compact(&self) -> (v: Vec<u8>)
        requires
            self.wf(),
        ensures
            v@ == compact_form(*self),
    {
        let mut v: Vec<u8> = Vec::new();
        push_four_digits(&mut v, self.year);
        push_two_digits(&mut v, self.month);
        push_two_digits(&mut v, self.day);
        v.push(95);  // '_'
        push_two_digits(&mut v, self.hour);
        push_two_digits(&mut v, self.minute);
        push_two_digits(&mut v, self.second);
        proof {
            assert(v@ =~= compact_form(*self));
        }
        v
    }

    /// Builds a timestamp from raw clock parts; returns `Some` exactly when
    /// every part fits the well-formed ranges.
    pub fn from_parts(year: i32, month: u32, day: u32, hour: u32, minute: u32, second: u32) -> (r:
        Option<UtcTimestamp>)
        ensures
            (r is Some) == (0 <= year <= 9999 && 1 <= month <= 12 && 1 <= day <= 31 && hour <= 23
                && minute <= 59 && second <= 59),
            r matches Some(t) ==> t == (UtcTimestamp {
                year: year as u16,
                month: month as u8,
                day: day as u8,
                hour: hour as u8,
                minute: minute as u8,
                second: second as u8,
            }) && t.wf(),
    {
        if 0 <= year && year <= 9999 && 1 <= month && month <= 12 && 1 <= day && day <= 31
            && hour <= 23 && minute <= 59 && second <= 59 {
            Some(
                UtcTimestamp {
                    year: year as u16,
                    month: month as u8,
                    day: day as u8,
                    hour: hour as u8,
                    minute: minute as u8,
                    second: second as u8,
                },
            )
        } else {
            None
        }
    }

    /// Reads the current UTC wall-clock time. `None` only when the clock
    /// reports a year outside 0..=9999.
    pub fn now() -> (r: Option<UtcTimestamp>)
        ensures
            r matches Some(t) ==> t.wf(),
    {
        let (year, month, day, hour, minute, second) = clock_now_parts();
        UtcTimestamp::from_parts(year, month, day, hour, minute, second)
    }
}

/// Relies on chrono's `Utc::now` and its `Datelike`/`Timelike` accessors for
/// the current UTC time. chrono documents the ranges: `month` is 1..=12,
/// `day` is 1..=31, `hour` is 0..=23, `minute` and `second` are 0..=59.
/// Nothing is promised of the year: the clock decides it. `Utc::now` itself
/// aborts when the system clock lies before the Unix epoch or outside
/// chrono's representable range.
#[verifier::external_body]
fn clock_now_parts() -> (r: (i32, u32, u32, u32, u32, u32))
    ensures
        1 <= r.1 <= 12,
        1 <= r.2 <= 31,
        r.3 <= 23,
        r.4 <= 59,
        r.5 <= 59,
{
    let t = chrono::Utc::now();
    (t.year(), t.month(), t.day(), t.hour(), t.minute(), t.second())
}

} // verus!
