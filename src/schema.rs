//! The document model: what a parsed API description holds.
use crate::schema::components::Components;
use crate::schema::info::{Info, Server};
use crate::schema::path::Path;
use crate::schema::path_item::PathItem;
use crate::schema::version::Version;
use crate::typing::TaggedString;
use vstd::prelude::*;

pub mod components;
pub mod data_type;
pub mod http_status_code;
pub mod info;
pub mod media_type;
pub mod parameter;
pub mod operation;
pub mod path;
pub mod path_item;
pub mod reference;
pub mod request_body;
pub mod response;
pub mod sref;
pub mod version;

verus! {

pub type SRef = sref::SRef;

/// A parsed API description.
#[derive(Debug)]
pub struct Description {
    pub openapi: Version,
    pub info: Info,
    pub servers: Vec<Server>,
    pub paths: Option<Vec<(Path, PathItem)>>,
    pub components: Option<Components>,
}

/// Tag of the tags that group operations of the API.
#[derive(Debug)]
pub enum ApiDocTagTag {
    Marker,
}

pub type ApiDocTag = TaggedString<ApiDocTagTag>;

/// Tag of the name of a property inside an object.
#[derive(Debug)]
pub enum PropertyNameTag {
    Marker,
}

pub type PropertyName = TaggedString<PropertyNameTag>;

/// Tag of the string value of a property, as used by discriminators.
#[derive(Debug)]
pub enum PropertyStringValueTag {
    Marker,
}

pub type PropertyStringValue = TaggedString<PropertyStringValueTag>;

/// Tag of the name of a header.
#[derive(Debug)]
pub enum HeaderNameTag {
    Marker,
}

pub type HeaderName = TaggedString<HeaderNameTag>;

} // verus!
