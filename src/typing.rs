//! Strongly typed wrappers around plain values of the document.
use vstd::prelude::*;

verus! {

/// A string that carries a marker type telling what it names.
#[derive(Debug)]
pub struct TaggedString<Tag> {
    v: String,
    _marker: core::marker::PhantomData<Tag>,
}

impl<Tag> View for TaggedString<Tag> {
    type V = Seq<char>;

    closed spec fn view(&self) -> Seq<char> {
        self.v@
    }
}

impl<Tag> TaggedString<Tag> {
    pub fn new(v: String) -> (r: Self)
        ensures
            r@ == v@,
    {
        TaggedString { v, _marker: core::marker::PhantomData }
    }

    pub fn as_str(&self) -> (r: &str)
        ensures
            r@ == self@,
    {
        self.v.as_str()
    }

    /// A second value with the same text.
    pub fn duplicate(&self) -> (r: Self)
        ensures
            r@ == self@,
    {
        TaggedString { v: self.v.clone(), _marker: core::marker::PhantomData }
    }
}

impl<Tag> PartialEq for TaggedString<Tag> {
    fn eq(&self, other: &Self) -> (r: bool) {
        self.v == other.v
    }
}

impl<Tag> vstd::std_specs::cmp::PartialEqSpecImpl for TaggedString<Tag> {
    open spec fn obeys_eq_spec() -> bool {
        true
    }

    open spec fn eq_spec(&self, other: &Self) -> bool {
        self@ == other@
    }
}

/// A value that may only be the boolean `true`.
#[derive(Debug)]
pub struct AlwaysTrue {}

#[derive(Debug, PartialEq, Eq)]
pub enum AlwaysTrueError {
    NotTrue,
}

impl AlwaysTrue {
    pub fn from_bool(value: bool) -> (r: Result<AlwaysTrue, AlwaysTrueError>)
        ensures
            r is Ok <==> value,
    {
        if value {
            Ok(AlwaysTrue {  })
        } else {
            Err(AlwaysTrueError::NotTrue)
        }
    }
}

/// A value that may only be the boolean `false`.
#[derive(Debug)]
pub struct AlwaysFalse {}

#[derive(Debug, PartialEq, Eq)]
pub enum AlwaysFalseError {
    NotFalse,
}

impl AlwaysFalse {
    pub fn from_bool(value: bool) -> (r: Result<AlwaysFalse, AlwaysFalseError>)
        ensures
            r is Ok <==> !value,
    {
        if !value {
            Ok(AlwaysFalse {  })
        } else {
            Err(AlwaysFalseError::NotFalse)
        }
    }
}

/// The text of a URI as uriparse writes it back, or `None` when the text is
/// not a URI.
pub uninterp spec fn uri_text(s: Seq<char>) -> Option<Seq<char>>;

#[verifier::external_type_specification]
#[verifier::external_body]
pub struct ExURIError(uriparse::URIError);

/// Why a text is not a URI.
#[derive(Debug)]
pub enum UriParseError {
    /// The text is not even a URI reference.
    Reference(uriparse::URIReferenceError),
    /// The text is a relative reference, not a URI.
    Uri(uriparse::URIError),
}

/// Relies on uriparse's `URIReference::try_from(&str)`, then
/// `URI::try_from(URIReference)` and the `Display` of `URI`: whether the text
/// parses, and what is written back, depend on the text alone.  Neither call
/// panics.
#[verifier::external_body]
fn parse_uri(s: &str) -> (r: Result<String, UriParseError>)
    ensures
        match r {
            Ok(t) => uri_text(s@) == Some(t@),
            Err(_) => uri_text(s@) is None,
        },
{
    match uriparse::URIReference::try_from(s) {
        Err(e) => Err(UriParseError::Reference(e)),
        Ok(reference) => match uriparse::URI::try_from(reference) {
            Ok(u) => Ok(u.to_string()),
            Err(e) => Err(UriParseError::Uri(e)),
        },
    }
}

/// A URI that carries a marker type telling what it locates.
#[derive(Debug)]
pub struct TaggedURI<Tag> {
    v: String,
    _marker: core::marker::PhantomData<Tag>,
}

impl<Tag> View for TaggedURI<Tag> {
    type V = Seq<char>;

    closed spec fn view(&self) -> Seq<char> {
        self.v@
    }
}

impl<Tag> TaggedURI<Tag> {
    /// Accepts a URI and keeps it in the form uriparse writes it.
    pub fn from_str(s: &str) -> (r: Result<Self, UriParseError>)
        ensures
            match r {
                Ok(u) => uri_text(s@) == Some(u@),
                Err(_) => uri_text(s@) is None,
            },
    {
        match parse_uri(s) {
            Ok(t) => Ok(TaggedURI { v: t, _marker: core::marker::PhantomData }),
            Err(e) => Err(e),
        }
    }

    pub fn as_str(&self) -> (r: &str)
        ensures
            r@ == self@,
    {
        self.v.as_str()
    }
}

} // verus!
