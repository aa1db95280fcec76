//! The OpenAPI version of a document: `major.minor.patch`.
use crate::text::{find_char, index_of, lemma_index_of_bounds, parse_unsigned, slice_of, unsigned_value};
use vstd::prelude::*;

verus! {

#[derive(Debug, PartialEq, Eq)]
pub struct Version {
    pub major: u32,
    pub minor: u32,
    pub patch: u32,
}

#[derive(Debug, PartialEq, Eq, Clone, Copy)]
pub enum VersionPart {
    Major,
    Minor,
    Patch,
}

#[derive(Debug, PartialEq, Eq)]
pub enum Error {
    /// The text has fewer than three parts.
    NoExpectedVersionPart(VersionPart),
    /// A part is not a number that fits in 32 bits.
    InvalidVersionPart(VersionPart),
    /// A fourth part follows; it is kept.
    UnexpectedRemainder(String),
}

/// Index of the `k`-th `.` of `s` (counting from 0), or -1.
pub open spec fn dot_index(s: Seq<char>, k: nat) -> int
    decreases k,
{
    if k == 0 {
        index_of(s, '.', 0)
    } else {
        let prev = dot_index(s, (k - 1) as nat);
        if prev < 0 {
            -1
        } else {
            index_of(s, '.', prev + 1)
        }
    }
}

/// The `k`-th part of `s` between dots, if there is one.
pub open spec fn version_part(s: Seq<char>, k: nat) -> Option<Seq<char>> {
    let start = if k == 0 { 0 } else { dot_index(s, (k - 1) as nat) + 1 };
    if k > 0 && dot_index(s, (k - 1) as nat) < 0 {
        None
    } else {
        let end = dot_index(s, k);
        Some(s.subrange(start, if end < 0 { s.len() as int } else { end }))
    }
}

pub open spec fn part_kind(k: nat) -> VersionPart {
    if k == 0 {
        VersionPart::Major
    } else if k == 1 {
        VersionPart::Minor
    } else {
        VersionPart::Patch
    }
}

/// The first of the three parts, from the left, that is missing or not a number.
pub open spec fn version_fault(s: Seq<char>, k: nat) -> Option<Error>
    decreases 3 - k,
{
    if k >= 3 {
        None
    } else {
        match version_part(s, k) {
            None => Some(Error::NoExpectedVersionPart(part_kind(k))),
            Some(p) => if unsigned_value(p, u32::MAX as int) is None {
                Some(Error::InvalidVersionPart(part_kind(k)))
            } else {
                version_fault(s, k + 1)
            },
        }
    }
}

pub open spec fn part_value(s: Seq<char>, k: nat) -> int {
    unsigned_value(version_part(s, k)->Some_0, u32::MAX as int)->Some_0
}

proof fn lemma_dot_index_bounds(s: Seq<char>, k: nat)
    ensures
        dot_index(s, k) == -1 || (0 <= dot_index(s, k) < s.len() && s[dot_index(s, k)] == '.'),
        k > 0 && dot_index(s, k) >= 0 ==> dot_index(s, (k - 1) as nat) >= 0 && dot_index(s, (k - 1) as nat) < dot_index(s, k),
    decreases k,
{
    if k == 0 {
        lemma_index_of_bounds(s, '.', 0);
    } else {
        lemma_dot_index_bounds(s, (k - 1) as nat);
        let prev = dot_index(s, (k - 1) as nat);
        if prev >= 0 {
            lemma_index_of_bounds(s, '.', prev + 1);
        }
    }
}

/// Reads the `k`-th part given where it starts.
fn read_part(s: &str, k: usize, start: usize) -> (r: Result<(u32, Option<usize>), Error>)
    requires
        k < 3,
        start <= s@.len(),
        version_part(s@, k as nat) is Some,
        start as int == (if k == 0 { 0 } else { dot_index(s@, (k - 1) as nat) + 1 }),
    ensures
        match r {
            Ok((v, next)) => unsigned_value(version_part(s@, k as nat)->Some_0, u32::MAX as int) == Some(v as int)
                && match next {
                    Some(d) => d as int == dot_index(s@, k as nat) && d < s@.len(),
                    None => dot_index(s@, k as nat) < 0,
                },
            Err(e) => unsigned_value(version_part(s@, k as nat)->Some_0, u32::MAX as int) is None
                && e == Error::InvalidVersionPart(part_kind(k as nat)),
        },
{
    proof {
        lemma_dot_index_bounds(s@, k as nat);
        if k > 0 {
            lemma_dot_index_bounds(s@, (k - 1) as nat);
        }
    }
    let n = s.unicode_len();
    let found = find_char(s, '.', start);
    assert(dot_index(s@, k as nat) == index_of(s@, '.', start as int));
    let end = match found {
        Some(d) => d,
        None => n,
    };
    proof {
        lemma_index_of_bounds(s@, '.', start as int);
    }
    let part = slice_of(s, start, end);
    let kind = if k == 0 {
        VersionPart::Major
    } else if k == 1 {
        VersionPart::Minor
    } else {
        VersionPart::Patch
    };
    match parse_unsigned(part.as_str(), 4294967295) {
        Some(v) => Ok((v as u32, found)),
        None => Err(Error::InvalidVersionPart(kind)),
    }
}

impl Version {
    /// Reads `major.minor.patch`, each part as `u32` parsing reads it.
    pub fn from_str(s: &str) -> (r: Result<Version, Error>)
        ensures
            match version_fault(s@, 0) {
                Some(e) => r == Err::<Version, Error>(e),
                None => if dot_index(s@, 2) >= 0 {
                    r matches Err(Error::UnexpectedRemainder(t)) && version_part(s@, 3) == Some(t@)
                } else {
                    r == Ok::<Version, Error>(
                        Version {
                            major: part_value(s@, 0) as u32,
                            minor: part_value(s@, 1) as u32,
                            patch: part_value(s@, 2) as u32,
                        },
                    )
                },
            },
    {
        proof {
            lemma_dot_index_bounds(s@, 0);
            lemma_dot_index_bounds(s@, 1);
            lemma_dot_index_bounds(s@, 2);
            lemma_dot_index_bounds(s@, 3);
            reveal_with_fuel(version_fault, 4);
            reveal_with_fuel(dot_index, 4);
        }
        let n = s.unicode_len();
        let (major, d0) = match read_part(s, 0, 0) {
            Ok(x) => x,
            Err(e) => return Err(e),
        };
        let d0 = match d0 {
            Some(d) => d,
            None => return Err(Error::NoExpectedVersionPart(VersionPart::Minor)),
        };
        let (minor, d1) = match read_part(s, 1, d0 + 1) {
            Ok(x) => x,
            Err(e) => return Err(e),
        };
        let d1 = match d1 {
            Some(d) => d,
            None => return Err(Error::NoExpectedVersionPart(VersionPart::Patch)),
        };
        let (patch, d2) = match read_part(s, 2, d1 + 1) {
            Ok(x) => x,
            Err(e) => return Err(e),
        };
        match d2 {
            Some(d) => {
                proof {
                    lemma_index_of_bounds(s@, '.', d + 1);
                }
                let end = match find_char(s, '.', d + 1) {
                    Some(e) => e,
                    None => n,
                };
                Err(Error::UnexpectedRemainder(slice_of(s, d + 1, end)))
            },
            None => Ok(Version { major, minor, patch }),
        }
    }
}

impl Error {
    /// The error in words.
    pub fn to_string(&self) -> (r: String)
        ensures
            match self {
                Error::NoExpectedVersionPart(p) => r@ == "missing version part: "@ + part_name(*p),
                Error::InvalidVersionPart(p) => r@ == "invalid version part: "@ + part_name(*p),
                Error::UnexpectedRemainder(t) => r@ == "invalid version remainder: "@ + t@,
            },
    {
        match self {
            Error::NoExpectedVersionPart(p) => {
                let mut r = String::from_str("missing version part: ");
                r.append(part_text(*p));
                r
            },
            Error::InvalidVersionPart(p) => {
                let mut r = String::from_str("invalid version part: ");
                r.append(part_text(*p));
                r
            },
            Error::UnexpectedRemainder(t) => {
                let mut r = String::from_str("invalid version remainder: ");
                r.append(t.as_str());
                r
            },
        }
    }
}

pub open spec fn part_name(p: VersionPart) -> Seq<char> {
    match p {
        VersionPart::Major => "major"@,
        VersionPart::Minor => "minor"@,
        VersionPart::Patch => "patch"@,
    }
}

fn part_text(p: VersionPart) -> (r: &'static str)
    ensures
        r@ == part_name(p),
{
    match p {
        VersionPart::Major => "major",
        VersionPart::Minor => "minor",
        VersionPart::Patch => "patch",
    }
}

} // verus!
