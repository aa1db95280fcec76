//! Reference pointers (`$ref`) and the keys they name.
use crate::schema::PropertyName;
use crate::text::{find_char, has_prefix, index_of, lemma_index_of_bounds, same_text, slice_of, tail_from};
use crate::typing::TaggedString;
use vstd::prelude::*;

verus! {

/// A reference pointer, kept as the text it was written with.
#[derive(Debug)]
pub struct SRef(String);

#[derive(Debug)]
pub enum SRefParameterTag {
    Marker,
}

pub type SRefParameter = TaggedString<SRefParameterTag>;

#[derive(Debug)]
pub enum SRefRequestBodyTag {
    Marker,
}

pub type SRefRequestBody = TaggedString<SRefRequestBodyTag>;

#[derive(Debug)]
pub enum SRefResponsesNameTag {
    Marker,
}

pub type SRefResponsesName = TaggedString<SRefResponsesNameTag>;

#[derive(Debug)]
pub enum SRefSchemasObjectNameTag {
    Marker,
}

pub type SRefSchemasObjectName = TaggedString<SRefSchemasObjectNameTag>;

#[derive(Debug)]
pub enum SRefSchemasTag {
    Marker,
}

/// What a pointer into the schemas section names.
#[derive(Debug)]
pub enum SRefSchemas {
    /// A whole schema.
    Normal(SRefSchemasObjectName),
    /// One property of an object schema.
    ObjProperty((SRefSchemasObjectName, PropertyName)),
}

/// The meaning of a pointer into the schemas section.
pub enum SchemaKey {
    Whole(Seq<char>),
    Property(Seq<char>, Seq<char>),
}

impl SRefSchemas {
    pub open spec fn key(&self) -> SchemaKey {
        match self {
            SRefSchemas::Normal(n) => SchemaKey::Whole(n@),
            SRefSchemas::ObjProperty((n, p)) => SchemaKey::Property(n@, p@),
        }
    }
}

#[derive(Debug)]
pub enum Error {
    URIReferenceError(uriparse::URIReferenceError),
    SRefSchemaParseError(String),
}

#[verifier::external_type_specification]
#[verifier::external_body]
pub struct ExURIReferenceError(uriparse::URIReferenceError);

/// Whether a text is a URI reference in the sense of RFC 3986.
pub uninterp spec fn is_uri_reference(s: Seq<char>) -> bool;

/// Relies on uriparse's `URIReference::try_from(&str)`: it accepts exactly the
/// URI references, and its answer depends on the text alone.
#[verifier::external_body]
fn check_uri_reference(s: &str) -> (r: Result<(), uriparse::URIReferenceError>)
    ensures
        r is Ok <==> is_uri_reference(s@),
{
    uriparse::URIReference::try_from(s).map(|_| ())
}

pub open spec fn parameters_prefix() -> Seq<char> {
    "#/components/parameters/"@
}

pub open spec fn request_bodies_prefix() -> Seq<char> {
    "#/components/requestBodies/"@
}

pub open spec fn responses_prefix() -> Seq<char> {
    "#/components/responses/"@
}

pub open spec fn schemas_prefix() -> Seq<char> {
    "#/components/schemas/"@
}

pub open spec fn properties_segment() -> Seq<char> {
    "properties"@
}

/// The text after `p`, when `s` starts with `p`.
pub open spec fn after_prefix(s: Seq<char>, p: Seq<char>) -> Option<Seq<char>> {
    if p.is_prefix_of(s) {
        Some(s.subrange(p.len() as int, s.len() as int))
    } else {
        None
    }
}

/// The key named by the text that follows the schemas prefix: `Name` or
/// `Name/properties/prop`; anything else is malformed (`None`).
pub open spec fn schema_key_of(r: Seq<char>) -> Option<SchemaKey> {
    let i = index_of(r, '/', 0);
    if i < 0 {
        Some(SchemaKey::Whole(r))
    } else {
        let j = index_of(r, '/', i + 1);
        if j < 0 || r.subrange(i + 1, j) != properties_segment() || index_of(r, '/', j + 1) >= 0 {
            None
        } else {
            Some(SchemaKey::Property(r.subrange(0, i), r.subrange(j + 1, r.len() as int)))
        }
    }
}

const PARAMETERS_PREFIX: &'static str = "#/components/parameters/";

const REQUEST_BODIES_PREFIX: &'static str = "#/components/requestBodies/";

const RESPONSES_PREFIX: &'static str = "#/components/responses/";

const SCHEMAS_PREFIX: &'static str = "#/components/schemas/";

impl View for SRef {
    type V = Seq<char>;

    closed spec fn view(&self) -> Seq<char> {
        self.0@
    }
}

/// The text after `p` in `s`, when `s` starts with `p`.
fn strip_prefix(s: &str, p: &str) -> (r: Option<String>)
    ensures
        match r {
            Some(t) => after_prefix(s@, p@) == Some(t@),
            None => after_prefix(s@, p@) is None,
        },
{
    if has_prefix(s, p) {
        let m = p.unicode_len();
        Some(tail_from(s, m))
    } else {
        None
    }
}

impl SRef {
    /// Accepts a pointer when its text is a URI reference.
    pub fn from_str(s: &str) -> (r: Result<SRef, Error>)
        ensures
            r is Ok <==> is_uri_reference(s@),
            r matches Ok(v) ==> v@ == s@,
    {
        match check_uri_reference(s) {
            Ok(()) => Ok(SRef(s.to_string())),
            Err(e) => Err(Error::URIReferenceError(e)),
        }
    }

    pub fn as_str(&self) -> (r: &str)
        ensures
            r@ == self@,
    {
        self.0.as_str()
    }

    pub fn parameter_sref(&self) -> (r: Option<SRefParameter>)
        ensures
            match r {
                Some(n) => after_prefix(self@, parameters_prefix()) == Some(n@),
                None => after_prefix(self@, parameters_prefix()) is None,
            },
    {
        proof {
            reveal_strlit("#/components/parameters/");
        }
        match strip_prefix(self.0.as_str(), PARAMETERS_PREFIX) {
            Some(t) => Some(SRefParameter::new(t)),
            None => None,
        }
    }

    pub fn request_body_sref(&self) -> (r: Option<SRefRequestBody>)
        ensures
            match r {
                Some(n) => after_prefix(self@, request_bodies_prefix()) == Some(n@),
                None => after_prefix(self@, request_bodies_prefix()) is None,
            },
    {
        proof {
            reveal_strlit("#/components/requestBodies/");
        }
        match strip_prefix(self.0.as_str(), REQUEST_BODIES_PREFIX) {
            Some(t) => Some(SRefRequestBody::new(t)),
            None => None,
        }
    }

    pub fn responses_sref(&self) -> (r: Option<SRefResponsesName>)
        ensures
            match r {
                Some(n) => after_prefix(self@, responses_prefix()) == Some(n@),
                None => after_prefix(self@, responses_prefix()) is None,
            },
    {
        proof {
            reveal_strlit("#/components/responses/");
        }
        match strip_prefix(self.0.as_str(), RESPONSES_PREFIX) {
            Some(t) => Some(SRefResponsesName::new(t)),
            None => None,
        }
    }

    /// The schema key of a pointer into the schemas section: `Ok(None)` for a
    /// pointer elsewhere, an error for a malformed one.
    pub fn schemas_sref(&self) -> (r: Result<Option<SRefSchemas>, Error>)
        ensures
            match r {
                Ok(None) => after_prefix(self@, schemas_prefix()) is None,
                Ok(Some(k)) => after_prefix(self@, schemas_prefix()) matches Some(t)
                    && schema_key_of(t) == Some(k.key()),
                Err(e) => after_prefix(self@, schemas_prefix()) matches Some(t)
                    && schema_key_of(t) is None && e is SRefSchemaParseError,
            },
    {
        proof {
            reveal_strlit("#/components/schemas/");
        }
        match strip_prefix(self.0.as_str(), SCHEMAS_PREFIX) {
            Some(t) => match SRefSchemas::from_str(t.as_str()) {
                Ok(k) => Ok(Some(k)),
                Err(e) => Err(e),
            },
            None => Ok(None),
        }
    }
}

impl SRefSchemas {
    /// Parses the text that follows the schemas prefix.
    pub fn from_str(s: &str) -> (r: Result<SRefSchemas, Error>)
        ensures
            match r {
                Ok(k) => schema_key_of(s@) == Some(k.key()),
                Err(e) => schema_key_of(s@) is None && e is SRefSchemaParseError,
            },
    {
        let n = s.unicode_len();
        match find_char(s, '/', 0) {
            None => Ok(SRefSchemas::Normal(SRefSchemasObjectName::new(s.to_string()))),
            Some(i) => {
                proof {
                    lemma_index_of_bounds(s@, '/', 0);
                    lemma_index_of_bounds(s@, '/', i + 1);
                }
                match find_char(s, '/', i + 1) {
                    None => Err(Error::SRefSchemaParseError(s.to_string())),
                    Some(j) => {
                        proof {
                            lemma_index_of_bounds(s@, '/', j + 1);
                            reveal_strlit("properties");
                        }
                        let seg = s.substring_char(i + 1, j);
                        if !same_text(seg, "properties") {
                            return Err(Error::SRefSchemaParseError(s.to_string()));
                        }
                        match find_char(s, '/', j + 1) {
                            Some(_) => Err(Error::SRefSchemaParseError(s.to_string())),
                            None => {
                                let name = slice_of(s, 0, i);
                                let prop = tail_from(s, j + 1);
                                Ok(SRefSchemas::ObjProperty((SRefSchemasObjectName::new(name), PropertyName::new(prop))))
                            },
                        }
                    },
                }
            },
        }
    }
}

} // verus!
