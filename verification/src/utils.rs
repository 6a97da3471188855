//! A lenient reading of durations, in which a text that denotes none is
//! itself a duration of an invalid unit.

use vstd::prelude::*;
use vstd::string::*;
use crate::text::{lemma_span, parse_number, parse_unsigned, span, to_chars};

verus! {

/// The unit of a duration, or the mark of a text that denotes none.
#[derive(Copy, Clone, Debug, PartialEq, Eq, Structural)]
pub enum TimeFormat {
    Hours,
    Minutes,
    Seconds,
    Invalid,
}

/// A duration: a count of hours, minutes or seconds.
#[derive(Copy, Clone, Debug, PartialEq, Eq, Structural)]
pub struct Time {
    format: TimeFormat,
    value: u32,
}

/// A duration as a mathematical value.
pub struct TimeView {
    pub format: TimeFormat,
    pub value: nat,
}

impl View for Time {
    type V = TimeView;

    closed spec fn view(&self) -> TimeView {
        TimeView { format: self.format, value: self.value as nat }
    }
}

/// The unit that a letter names.
pub open spec fn unit_of(c: char) -> Option<TimeFormat> {
    if c == 'h' || c == 'H' {
        Some(TimeFormat::Hours)
    } else if c == 'm' || c == 'M' {
        Some(TimeFormat::Minutes)
    } else if c == 's' || c == 'S' {
        Some(TimeFormat::Seconds)
    } else {
        None
    }
}

impl TimeView {
    /// The duration of a text that denotes none.
    pub open spec fn invalid() -> TimeView {
        TimeView { format: TimeFormat::Invalid, value: 0 }
    }

    /// The duration in seconds; none for an invalid duration.
    pub open spec fn seconds(self) -> nat {
        match self.format {
            TimeFormat::Hours => self.value * 60 * 60,
            TimeFormat::Minutes => self.value * 60,
            TimeFormat::Seconds => self.value,
            TimeFormat::Invalid => 0,
        }
    }
}

/// The duration that a text denotes: an unsigned decimal numeral that fits
/// 32 bits, then the letter of a unit; what follows that letter is not
/// looked at. Any other text denotes the invalid duration.
pub open spec fn time_format(s: Seq<char>) -> TimeView {
    let k = span(s, |c: char| unit_of(c) is None) as int;
    if k < s.len() && parse_unsigned(s.take(k), u32::MAX as nat) is Some {
        TimeView {
            format: unit_of(s[k])->Some_0,
            value: parse_unsigned(s.take(k), u32::MAX as nat)->Some_0,
        }
    } else {
        TimeView::invalid()
    }
}

/// The unit that a letter names.
fn unit(c: char) -> (r: Option<TimeFormat>)
    ensures
        r == unit_of(c),
{
    if c == 'h' || c == 'H' {
        Some(TimeFormat::Hours)
    } else if c == 'm' || c == 'M' {
        Some(TimeFormat::Minutes)
    } else if c == 's' || c == 'S' {
        Some(TimeFormat::Seconds)
    } else {
        None
    }
}

impl Time {
    /// A duration of the given unit whose count is written in `value`.
    pub fn new(format: TimeFormat, value: &str) -> (t: Self)
        requires
            parse_unsigned(value@, u32::MAX as nat) is Some,
        ensures
            t@ == (TimeView { format, value: parse_unsigned(value@, u32::MAX as nat)->Some_0 }),
    {
        let chars = to_chars(value);
        assert(chars@.subrange(0, chars@.len() as int) =~= value@);
        Self { format, value: parse_number(&chars, 0, chars.len(), u32::MAX).unwrap() }
    }

    /// The duration of a text that denotes none.
    pub fn new_invalid() -> (t: Self)
        ensures
            t@ == TimeView::invalid(),
    {
        Self { format: TimeFormat::Invalid, value: 0 }
    }

    /// The unit.
    pub fn format(&self) -> (f: TimeFormat)
        ensures
            f == self@.format,
    {
        self.format
    }

    /// The count.
    pub fn value(&self) -> (v: u32)
        ensures
            v == self@.value,
    {
        self.value
    }
}

/// Reads a duration.
pub fn get_time_format(time_str: &str) -> (t: Time)
    ensures
        t@ == time_format(time_str@),
{
    let chars = to_chars(time_str);
    let n = chars.len();
    let mut k: usize = 0;
    while k < n && unit(chars[k]).is_none()
        invariant
            k <= n,
            n == chars.len(),
            forall|i: int| 0 <= i < k ==> unit_of(#[trigger] chars@[i]) is None,
        decreases n - k,
    {
        k += 1;
    }
    proof {
        lemma_span(time_str@, |c: char| unit_of(c) is None, k as int);
    }
    if k == n {
        return Time::new_invalid();
    }
    assert(chars@.subrange(0, k as int) =~= time_str@.take(k as int));
    match (unit(chars[k]), parse_number(&chars, 0, k, u32::MAX)) {
        (Some(format), Some(value)) => Time { format, value },
        _ => Time::new_invalid(),
    }
}

/// The duration in seconds; none for an invalid duration.
pub fn get_seconds_from_fromat(time: Time) -> (s: u32)
    requires
        time@.seconds() <= u32::MAX,
    ensures
        s == time@.seconds(),
{
    match time.format {
        TimeFormat::Hours => {
            assert(time.value * 60 <= time.value * 60 * 60) by (nonlinear_arith);
            time.value * 60 * 60
        },
        TimeFormat::Minutes => time.value * 60,
        TimeFormat::Seconds => time.value,
        TimeFormat::Invalid => 0,
    }
}

} // verus!
