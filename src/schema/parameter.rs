//! Parameter objects.
use crate::schema::data_type::DataType;
use crate::schema::media_type::Content as MediaContent;
use crate::schema::reference::Reference;
use crate::typing::AlwaysTrue;
use crate::typing::TaggedString;
use vstd::prelude::*;

verus! {

#[derive(Debug)]
pub struct Parameter {
    pub name: Name,
    pub description: Option<Description>,
    pub place: Place,
    pub content_schema: ContentSchema,
}

impl Parameter {
    pub fn is_query(&self) -> (r: bool)
        ensures
            r == (self.place is Query),
    {
        match self.place {
            Place::Query(_) => true,
            _ => false,
        }
    }

    pub fn is_header(&self) -> (r: bool)
        ensures
            r == (self.place is Header),
    {
        match self.place {
            Place::Header(_) => true,
            _ => false,
        }
    }

    pub fn is_cookie(&self) -> (r: bool)
        ensures
            r == (self.place is Cookie),
    {
        match self.place {
            Place::Cookie(_) => true,
            _ => false,
        }
    }
}

#[derive(Debug)]
pub enum ParameterNameTag {
    Marker,
}

pub type Name = TaggedString<ParameterNameTag>;

#[derive(Debug)]
pub enum ParameterDescriptionTag {
    Marker,
}

pub type Description = TaggedString<ParameterDescriptionTag>;

/// Where the parameter is carried.
#[derive(Debug)]
pub enum Place {
    Query(QueryFlags),
    Header(OtherFlags),
    Path(PathFlags),
    Cookie(OtherFlags),
}

#[derive(Debug)]
pub struct QueryFlags {
    pub required: bool,
    pub deprecated: bool,
    pub allow_empty_value: bool,
}

/// A path parameter is always required.
#[derive(Debug)]
pub struct PathFlags {
    pub required: AlwaysTrue,
    pub deprecated: bool,
}

#[derive(Debug)]
pub struct OtherFlags {
    pub required: bool,
    pub deprecated: bool,
}

#[derive(Debug)]
pub enum ContentSchema {
    SchemaAndStyle(SchemaAndStyle),
    Content(Content),
    Absent(NoContent),
}

#[derive(Debug)]
pub struct SchemaAndStyle {
    pub style: SerializeStyle,
    pub schema: DataType,
}

#[derive(Debug)]
pub enum SerializeStyle {
    Form,
    Simple,
}

#[derive(Debug)]
pub struct Content {
    pub content: MediaContent,
}

/// A parameter with neither a schema nor a content.
#[derive(Debug)]
pub struct NoContent {}

#[derive(Debug)]
pub enum ParameterOrReference {
    Parameter(Parameter),
    Reference(Reference),
}

} // verus!
