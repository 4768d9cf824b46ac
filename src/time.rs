//! Lengths of time given as `3h`, `3d`, `3w` or `3`, counted in days.
use vstd::prelude::*;
use crate::text::{parse_u32, parsed_u32, trim, trimmed};

verus! {

/// A length of time in whole days.
#[derive(Debug, Clone, Copy, PartialEq, Eq, Structural)]
pub struct TimeDuration {
    pub days: u32,
}

pub open spec fn is_ascii_alpha(c: char) -> bool {
    ('a' <= c && c <= 'z') || ('A' <= c && c <= 'Z')
}

pub open spec fn ascii_lower(c: char) -> char {
    if 'A' <= c && c <= 'Z' {
        ((c as u8) + 32) as char
    } else {
        c
    }
}

/// Days for `n` units of the given (lower-case) suffix; `None` for an
/// unknown suffix or a count of days that does not fit.
pub open spec fn days_for(n: u32, suffix: Option<char>) -> Option<u32> {
    match suffix {
        None => Some(n),
        Some(c) => if c == 'd' {
            Some(n)
        } else if c == 'h' {
            Some(((n + 23) / 24) as u32)
        } else if c == 'w' && n * 7 <= u32::MAX {
            Some((n * 7) as u32)
        } else {
            None
        },
    }
}

/// What a text denotes once trimmed: a positive whole number, optionally
/// followed by one letter (`h`, `d` or `w`, in either case).
pub open spec fn duration_of(s: Seq<char>) -> Option<u32> {
    let t = trimmed(s);
    if t.len() == 0 {
        None
    } else {
        let has_suffix = is_ascii_alpha(t.last());
        let num = if has_suffix {
            t.drop_last()
        } else {
            t
        };
        let suffix = if has_suffix {
            Some(ascii_lower(t.last()))
        } else {
            None
        };
        match parsed_u32(num) {
            None => None,
            Some(n) => if n == 0 {
                None
            } else {
                days_for(n, suffix)
            },
        }
    }
}

impl TimeDuration {
    pub fn as_days(&self) -> (r: u32)
        ensures
            r == self.days,
    {
        self.days
    }

    /// Hours in days, rounded up.
    pub fn hours_to_days(hours: u32) -> (r: u32)
        ensures
            r == (hours + 23) / 24,
    {
        ((hours as u64 + 23) / 24) as u32
    }

    pub fn weeks_to_days(weeks: u32) -> (r: u32)
        requires
            weeks * 7 <= u32::MAX,
        ensures
            r == weeks * 7,
    {
        weeks * 7
    }

    /// Parses a length of time; a number without a letter counts days.
    pub fn parse(s: &str) -> (r: Result<TimeDuration, String>)
        ensures
            match r {
                Ok(d) => duration_of(s@) == Some(d.days),
                Err(_) => duration_of(s@) is None,
            },
    {
        let t = trim(s);
        let n = t.unicode_len();
        if n == 0 {
            return Err(String::from_str("Time duration cannot be empty"));
        }
        let last = t.get_char(n - 1);
        let has_suffix = ('a' <= last && last <= 'z') || ('A' <= last && last <= 'Z');
        let num = if has_suffix {
            t.substring_char(0, n - 1)
        } else {
            t
        };
        assert(has_suffix ==> num@ == t@.drop_last());
        let suffix: Option<char> = if has_suffix {
            if 'A' <= last && last <= 'Z' {
                Some(((last as u8) + 32) as char)
            } else {
                Some(last)
            }
        } else {
            None
        };
        let number = match parse_u32(num) {
            Some(v) => v,
            None => {
                return Err(String::from_str("Invalid number in time duration"));
            },
        };
        if number == 0 {
            return Err(String::from_str("Time duration must be greater than 0"));
        }
        match suffix {
            None => Ok(TimeDuration { days: number }),
            Some(c) => if c == 'd' {
                Ok(TimeDuration { days: number })
            } else if c == 'h' {
                Ok(TimeDuration { days: TimeDuration::hours_to_days(number) })
            } else if c == 'w' {
                if number <= u32::MAX / 7 {
                    Ok(TimeDuration { days: TimeDuration::weeks_to_days(number) })
                } else {
                    Err(String::from_str("Time duration is too long"))
                }
            } else {
                Err(String::from_str("Invalid time suffix. Use 'h' for hours, 'd' for days, or 'w' for weeks"))
            },
        }
    }

    /// `N days`.
    pub fn to_text(&self) -> (r: String)
        ensures
            r@ == crate::text::decimal(self.days as nat) + " days"@,
    {
        let mut s = crate::text::decimal_string(self.days as u64);
        s.append(" days");
        s
    }
}

impl std::str::FromStr for TimeDuration {
    type Err = String;

    fn from_str(s: &str) -> Result<TimeDuration, String> {
        TimeDuration::parse(s)
    }
}

} // verus!
