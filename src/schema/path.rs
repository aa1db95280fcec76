//! Paths of the API and the parameters named in them.
use crate::text::{find_char, index_of, lemma_index_of_bounds, slice_of};
use vstd::prelude::*;

verus! {

/// A path template such as `/pets/{id}`.
#[derive(Debug)]
pub struct Path(String);

#[derive(Debug, PartialEq, Eq)]
pub enum Error {
    MustNotbeEmpty,
    MustStartWithRoot,
}

impl View for Path {
    type V = Seq<char>;

    closed spec fn view(&self) -> Seq<char> {
        self.0@
    }
}

/// Whether a text is a path: empty, or starting with `/`.
pub open spec fn is_path(s: Seq<char>) -> bool {
    s.len() == 0 || s[0] == '/'
}

impl Path {
    pub fn from_str(s: &str) -> (r: Result<Path, Error>)
        ensures
            match r {
                Ok(p) => is_path(s@) && p@ == s@,
                Err(e) => !is_path(s@) && e == Error::MustStartWithRoot,
            },
    {
        let n = s.unicode_len();
        if n > 0 && s.get_char(0) != '/' {
            Err(Error::MustStartWithRoot)
        } else {
            Ok(Path(s.to_string()))
        }
    }

    pub fn as_str(&self) -> (r: &str)
        ensures
            r@ == self@,
    {
        self.0.as_str()
    }

    pub fn path_params_iter(&self) -> (r: PathParamTryIter<'_>)
        ensures
            r.data == self,
            r.pos == 0,
    {
        PathParamTryIter { data: self, pos: 0 }
    }
}

#[derive(Debug, PartialEq, Eq)]
pub enum PathParseError {
    /// The path, and the position of a `{` that no `}` follows.
    CannotFindCloseBrackets(String, usize),
}

/// Walks the `{name}` parameters of a path from left to right.
pub struct PathParamTryIter<'a> {
    pub data: &'a Path,
    pub pos: usize,
}

/// What the walk yields from position `pos`: nothing more, a name and the
/// position after it, or an unclosed `{` (the walk then stays where it is).
pub enum ParamStep {
    End,
    Name(Seq<char>, int),
    Unclosed(int),
}

pub open spec fn param_step(s: Seq<char>, pos: int) -> ParamStep {
    if pos >= s.len() {
        ParamStep::End
    } else {
        let st = index_of(s, '{', pos);
        if st < 0 {
            ParamStep::End
        } else {
            let en = index_of(s, '}', st);
            if en < 0 {
                ParamStep::Unclosed(st)
            } else {
                ParamStep::Name(s.subrange(st + 1, en), en + 1)
            }
        }
    }
}

impl<'a> PathParamTryIter<'a> {
    pub fn next(&mut self) -> (r: Option<Result<String, PathParseError>>)
        ensures
            final(self).data == old(self).data,
            match param_step(old(self).data@, old(self).pos as int) {
                ParamStep::End => r is None && final(self).pos == old(self).pos,
                ParamStep::Name(n, next) => r matches Some(Ok(t)) && t@ == n && final(self).pos == next,
                ParamStep::Unclosed(at) => r matches Some(Err(PathParseError::CannotFindCloseBrackets(p, i)))
                    && p@ == old(self).data@ && i == at && final(self).pos == old(self).pos,
            },
    {
        let s = self.data.as_str();
        let n = s.unicode_len();
        if self.pos >= n {
            return None;
        }
        proof {
            lemma_index_of_bounds(s@, '{', self.pos as int);
        }
        match find_char(s, '{', self.pos) {
            None => None,
            Some(st) => {
                proof {
                    lemma_index_of_bounds(s@, '}', st as int);
                }
                match find_char(s, '}', st) {
                    None => Some(Err(PathParseError::CannotFindCloseBrackets(s.to_string(), st))),
                    Some(en) => {
                        let name = slice_of(s, st + 1, en);
                        self.pos = en + 1;
                        Some(Ok(name))
                    },
                }
            },
        }
    }
}

} // verus!
