//! HTTP status codes as keys of a responses object.
use crate::text::{is_digit, digit_value, parse_unsigned, unsigned_value};
use vstd::prelude::*;

verus! {

#[derive(Debug, PartialEq, Eq)]
pub enum HttpStatusCode {
    Specific(Specific),
    Pattern(Pattern),
}

#[derive(Debug, PartialEq, Eq)]
pub enum Error {
    CodeOutsideRange(u16, u16, u16),
    InvalidPattern(String),
}

/// One status code in `[100, 599]`.
#[derive(Debug, PartialEq, Eq)]
pub struct Specific(u16);

/// A class of status codes: `1XX` to `5XX`.
#[derive(Debug, PartialEq, Eq)]
pub struct Pattern {
    code_class: u8,
}

impl Specific {
    pub closed spec fn code(&self) -> int {
        self.0 as int
    }

    pub fn try_from(v: u16) -> (r: Result<Specific, Error>)
        ensures
            match r {
                Ok(s) => 100 <= v <= 599 && s.code() == v,
                Err(e) => !(100 <= v <= 599) && e == Error::CodeOutsideRange(v, 100, 599),
            },
    {
        if 100 <= v && v <= 599 {
            Ok(Specific(v))
        } else {
            Err(Error::CodeOutsideRange(v, 100, 599))
        }
    }

    pub fn value(&self) -> (r: u16)
        ensures
            r == self.code(),
    {
        self.0
    }
}

/// The class digit of a pattern `dXX`, when `s` starts with one (1 to 5).
pub open spec fn pattern_class(s: Seq<char>) -> Option<int> {
    if s.len() >= 3 && is_digit(s[0]) && 1 <= digit_value(s[0]) <= 5 && s[1] == 'X' && s[2] == 'X' {
        Some(digit_value(s[0]))
    } else {
        None
    }
}

impl Pattern {
    pub closed spec fn class(&self) -> int {
        self.code_class as int
    }

    pub fn code_class(&self) -> (r: u8)
        ensures
            r == self.class(),
    {
        self.code_class
    }

    /// Reads a pattern from the first three characters of `s`.
    pub fn from_str(s: &str) -> (r: Result<Pattern, Error>)
        ensures
            match r {
                Ok(p) => pattern_class(s@) == Some(p.class()),
                Err(e) => pattern_class(s@) is None && (e matches Error::InvalidPattern(t) && t@ == s@),
            },
    {
        let n = s.unicode_len();
        if n < 3 {
            return Err(Error::InvalidPattern(s.to_string()));
        }
        let c = s.get_char(0);
        if !(c >= '1' && c <= '5') || s.get_char(1) != 'X' || s.get_char(2) != 'X' {
            return Err(Error::InvalidPattern(s.to_string()));
        }
        let d = (c as u32 - 48) as u8;
        Ok(Pattern { code_class: d })
    }
}

impl HttpStatusCode {
    /// A number (as `u16` parsing reads it) must be a code in `[100, 599]`;
    /// any other text must be a pattern.
    pub fn from_str(s: &str) -> (r: Result<HttpStatusCode, Error>)
        ensures
            match unsigned_value(s@, 65535) {
                Some(v) => match r {
                    Ok(HttpStatusCode::Specific(c)) => c.code() == v && 100 <= v <= 599,
                    Ok(HttpStatusCode::Pattern(_)) => false,
                    Err(e) => !(100 <= v <= 599) && e == Error::CodeOutsideRange(v as u16, 100, 599),
                },
                None => match r {
                    Ok(HttpStatusCode::Pattern(p)) => pattern_class(s@) == Some(p.class()),
                    Ok(HttpStatusCode::Specific(_)) => false,
                    Err(e) => pattern_class(s@) is None && (e matches Error::InvalidPattern(t) && t@ == s@),
                },
            },
    {
        match parse_unsigned(s, 65535) {
            Some(v) => match Specific::try_from(v as u16) {
                Ok(c) => Ok(HttpStatusCode::Specific(c)),
                Err(e) => Err(e),
            },
            None => match Pattern::from_str(s) {
                Ok(p) => Ok(HttpStatusCode::Pattern(p)),
                Err(e) => Err(e),
            },
        }
    }
}

} // verus!
