//! Request bodies.
use crate::schema::media_type::Content;
use crate::schema::SRef;
use crate::typing::TaggedString;
use vstd::prelude::*;

verus! {

#[derive(Debug)]
pub struct RequestBody {
    pub description: Option<Description>,
    pub content: Content,
    pub required: Option<bool>,
}

#[derive(Debug)]
pub enum RequestBodyDescriptionTag {
    Marker,
}

pub type Description = TaggedString<RequestBodyDescriptionTag>;

#[derive(Debug)]
pub enum RequestBodyOrReference {
    RequestBody(RequestBody),
    Reference(SRef),
}

} // verus!
