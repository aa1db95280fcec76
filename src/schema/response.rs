//! Responses.
use crate::schema::http_status_code::HttpStatusCode;
use crate::schema::media_type::Content;
use crate::schema::reference::Reference;
use crate::typing::TaggedString;
use vstd::prelude::*;

verus! {

#[derive(Debug)]
pub struct Response {
    pub description: Option<Description>,
    pub content: Option<Content>,
}

#[derive(Debug)]
pub enum ResponseDescriptionTag {
    Marker,
}

pub type Description = TaggedString<ResponseDescriptionTag>;

#[derive(Debug)]
pub enum ResponseOrReference {
    Reference(Reference),
    Response(Response),
}

/// The responses of an operation: the default one and one per status code.
#[derive(Debug)]
pub struct Responses {
    pub default: Option<ResponseOrReference>,
    pub codes: Vec<(HttpStatusCode, ResponseOrReference)>,
}

} // verus!
