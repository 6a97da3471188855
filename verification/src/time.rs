//! Durations as a person writes them, such as `25m` or `1h`, and seconds
//! shown as a clock.

use vstd::prelude::*;
use vstd::string::*;
use crate::text::{
    all_digits, digits_value, is_digit, lemma_span, parse_number, parse_unsigned, span, to_chars,
    two_digit_string, two_digits,
};

verus! {

/// The unit of a duration.
#[derive(Copy, Clone, Debug, PartialEq, Eq, Structural)]
pub enum TimeFormat {
    Hours,
    Minutes,
    Seconds,
}

/// A duration: a count of hours, minutes or seconds.
#[derive(Copy, Clone, Debug, PartialEq, Eq, Structural)]
pub struct Time {
    pub format: TimeFormat,
    pub value: u32,
}

/// The unit that a letter names.
pub open spec fn unit_of(c: char) -> Option<TimeFormat> {
    if c == 'h' || c == 'H' {
        Some(TimeFormat::Hours)
    } else if c == 'm' || c == 'M' {
        Some(TimeFormat::Minutes)
    } else if c == 's' || c == 'S' {
        Some(TimeFormat::Seconds)
    } else {
        None
    }
}

/// The duration that a text denotes: one or more ASCII digits with a value
/// that fits 32 bits, then the letter of a unit. What follows the letter is
/// not looked at.
pub open spec fn parse_time(s: Seq<char>) -> Option<Time> {
    let k = span(s, |c: char| is_digit(c)) as int;
    if 0 < k < s.len() && unit_of(s[k]) is Some && digits_value(s.take(k)) <= u32::MAX {
        Some(Time { format: unit_of(s[k])->Some_0, value: digits_value(s.take(k)) as u32 })
    } else {
        None
    }
}

/// What reading a duration gives: the duration, or the message of what is
/// wrong with the text. A duration has to be positive and below ten hours.
pub open spec fn read_time(s: Seq<char>) -> Result<Time, Seq<char>> {
    match parse_time(s) {
        Some(t) => if t.valid_len() {
            Ok(t)
        } else {
            Err("Invalid length: input must be in range (1s < input < 10h)"@)
        },
        None => Err("Invalid time format"@),
    }
}

/// The unit that a letter names.
fn unit(c: char) -> (r: Option<TimeFormat>)
    ensures
        r == unit_of(c),
{
    if c == 'h' || c == 'H' {
        Some(TimeFormat::Hours)
    } else if c == 'm' || c == 'M' {
        Some(TimeFormat::Minutes)
    } else if c == 's' || c == 'S' {
        Some(TimeFormat::Seconds)
    } else {
        None
    }
}

impl Time {
    /// Whether the duration is positive and below ten hours.
    pub open spec fn valid_len(self) -> bool {
        self.value != 0 && match self.format {
            TimeFormat::Hours => self.value < 10,
            TimeFormat::Minutes => self.value < 60 * 10,
            TimeFormat::Seconds => self.value < 60 * 60 * 10,
        }
    }

    /// The duration in seconds.
    pub open spec fn total_seconds(self) -> nat {
        match self.format {
            TimeFormat::Hours => (self.value * 60 * 60) as nat,
            TimeFormat::Minutes => (self.value * 60) as nat,
            TimeFormat::Seconds => self.value as nat,
        }
    }

    /// Reads a duration and checks its length.
    pub fn new(input: &str) -> (r: Result<Self, String>)
        ensures
            match read_time(input@) {
                Ok(t) => r == Ok::<Time, String>(t),
                Err(e) => r is Err && r->Err_0@ == e,
            },
    {
        let time = match Self::input_to_time(input) {
            Ok(t) => t,
            Err(e) => {
                return Err(e);
            },
        };
        if Self::is_valid_len(&time) {
            Ok(time)
        } else {
            Err(String::from_str("Invalid length: input must be in range (1s < input < 10h)"))
        }
    }

    fn input_to_time(input: &str) -> (r: Result<Self, String>)
        ensures
            match parse_time(input@) {
                Some(t) => r == Ok::<Time, String>(t),
                None => r is Err && r->Err_0@ == "Invalid time format"@,
            },
    {
        let chars = to_chars(input);
        let n = chars.len();
        let mut k: usize = 0;
        while k < n && chars[k] >= '0' && chars[k] <= '9'
            invariant
                k <= n,
                n == chars.len(),
                forall|i: int| 0 <= i < k ==> is_digit(#[trigger] chars@[i]),
            decreases n - k,
        {
            k += 1;
        }
        proof {
            lemma_span(input@, |c: char| is_digit(c), k as int);
        }
        if k == 0 || k == n {
            return Err(String::from_str("Invalid time format"));
        }
        let format = match unit(chars[k]) {
            Some(f) => f,
            None => {
                return Err(String::from_str("Invalid time format"));
            },
        };
        assert(chars@.subrange(0, k as int) =~= input@.take(k as int));
        assert(input@.take(k as int)[0] != '+');
        assert(all_digits(input@.take(k as int)));
        // The digits are a numeral; it denotes nothing only where it is too
        // large.
        match parse_number(&chars, 0, k, u32::MAX) {
            Some(value) => Ok(Time { format, value }),
            None => Err(String::from_str("Invalid time format")),
        }
    }

    fn is_valid_len(time: &Self) -> (b: bool)
        ensures
            b == time.valid_len(),
    {
        if time.value == 0 {
            return false;
        }
        match time.format {
            TimeFormat::Hours => time.value < 10,
            TimeFormat::Minutes => time.value < 60 * 10,
            TimeFormat::Seconds => time.value < 60 * 60 * 10,
        }
    }

    /// A duration of the given unit whose count is written in `value`.
    pub fn parsed(format: TimeFormat, value: &str) -> (t: Self)
        requires
            parse_unsigned(value@, u32::MAX as nat) is Some,
        ensures
            t.format == format,
            t.value == parse_unsigned(value@, u32::MAX as nat)->Some_0,
    {
        let chars = to_chars(value);
        assert(chars@.subrange(0, chars@.len() as int) =~= value@);
        Self { format, value: parse_number(&chars, 0, chars.len(), u32::MAX).unwrap() }
    }

    /// The duration in seconds.
    pub fn get_seconds(&self) -> (s: u32)
        requires
            self.total_seconds() <= u32::MAX,
        ensures
            s == self.total_seconds(),
    {
        match self.format {
            TimeFormat::Hours => self.value * 60 * 60,
            TimeFormat::Minutes => self.value * 60,
            TimeFormat::Seconds => self.value,
        }
    }

    /// Seconds as a clock: `SS` below a minute, `MM:SS` below an hour,
    /// `HH:MM:SS` from there on, each part in at least two digits.
    pub open spec fn clock(seconds: nat) -> Seq<char> {
        let h = seconds / 60 / 60;
        let m = seconds / 60 % 60;
        let s = seconds % 60;
        if h == 0 && m == 0 {
            two_digits(s)
        } else if h == 0 {
            two_digits(m) + seq![':'] + two_digits(s)
        } else {
            two_digits(h) + seq![':'] + two_digits(m) + seq![':'] + two_digits(s)
        }
    }

    /// Shows seconds as a clock.
    pub fn get_clock_from_seconds(seconds: &u32) -> (c: String)
        ensures
            c@ == Self::clock(*seconds as nat),
    {
        let hours = *seconds / 60 / 60;
        let minutes = *seconds / 60 % 60;
        let secs = *seconds % 60;
        proof {
            reveal_strlit(":");
        }
        if hours == 0 && minutes == 0 {
            two_digit_string(secs)
        } else if hours == 0 {
            let mut c = two_digit_string(minutes);
            c.append(":");
            c.append(two_digit_string(secs).as_str());
            assert(c@ =~= Self::clock(*seconds as nat));
            c
        } else {
            let mut c = two_digit_string(hours);
            c.append(":");
            c.append(two_digit_string(minutes).as_str());
            c.append(":");
            c.append(two_digit_string(secs).as_str());
            assert(c@ =~= Self::clock(*seconds as nat));
            c
        }
    }
}

/// A duration of a valid length comes to fewer seconds than ten hours, so
/// that its seconds can always be taken.
pub proof fn lemma_valid_len_seconds(t: Time)
    requires
        t.valid_len(),
    ensures
        0 < t.total_seconds() < 60 * 60 * 10,
{
}

} // verus!
