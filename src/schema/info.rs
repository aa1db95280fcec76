//! Metadata about the API.
use crate::typing::{TaggedString, TaggedURI};
use vstd::prelude::*;

verus! {

#[derive(Debug)]
pub struct Info {
    pub title: ApiTitle,
    pub version: ApiVersion,
    pub description: Option<ApiDescription>,
    pub term_of_service: Option<TermOfService>,
    pub contact: Option<Contact>,
    pub license: Option<License>,
}

#[derive(Debug)]
pub enum ApiTitleTag {
    Marker,
}

pub type ApiTitle = TaggedString<ApiTitleTag>;

#[derive(Debug)]
pub enum ApiVersionTag {
    Marker,
}

pub type ApiVersion = TaggedString<ApiVersionTag>;

#[derive(Debug)]
pub enum ApiDescriptionTag {
    Marker,
}

pub type ApiDescription = TaggedString<ApiDescriptionTag>;

#[derive(Debug)]
pub enum TermOfServiceTag {
    Marker,
}

pub type TermOfService = TaggedURI<TermOfServiceTag>;

#[derive(Debug)]
pub struct Contact {
    pub name: Option<ContactName>,
    pub url: Option<ContactURI>,
    pub email: Option<ContactEmail>,
}

#[derive(Debug)]
pub enum ContactNameTag {
    Marker,
}

pub type ContactName = TaggedString<ContactNameTag>;

#[derive(Debug)]
pub enum ContactURITag {
    Marker,
}

pub type ContactURI = TaggedURI<ContactURITag>;

#[derive(Debug)]
pub enum ContactEmailTag {
    Marker,
}

pub type ContactEmail = TaggedString<ContactEmailTag>;

#[derive(Debug)]
pub struct License {
    pub name: LicenseName,
    pub url: Option<LicenseURI>,
}

#[derive(Debug)]
pub enum LicenseNameTag {
    Marker,
}

pub type LicenseName = TaggedString<LicenseNameTag>;

#[derive(Debug)]
pub enum LicenseURITag {
    Marker,
}

pub type LicenseURI = TaggedURI<LicenseURITag>;

#[derive(Debug)]
pub struct ExternalDoc {
    pub url: ExternalDocURI,
    pub description: Option<ExternalDocDescription>,
}

#[derive(Debug)]
pub enum ExternalDocURITag {
    Marker,
}

pub type ExternalDocURI = TaggedURI<ExternalDocURITag>;

#[derive(Debug)]
pub enum ExternalDocDescriptionTag {
    Marker,
}

pub type ExternalDocDescription = TaggedString<ExternalDocDescriptionTag>;

/// A server that hosts the API.
#[derive(Debug)]
pub struct Server {
    pub url: ServerURI,
    pub descriptor: Option<ServerDescription>,
    pub variables: Option<Vec<(ServerVariableName, ServerVariable)>>,
}

#[derive(Debug)]
pub enum ServerURITag {
    Marker,
}

pub type ServerURI = TaggedString<ServerURITag>;

#[derive(Debug)]
pub enum ServerDescriptionTag {
    Marker,
}

pub type ServerDescription = TaggedString<ServerDescriptionTag>;

#[derive(Debug)]
pub enum ServerVariableNameTag {
    Marker,
}

pub type ServerVariableName = TaggedString<ServerVariableNameTag>;

#[derive(Debug)]
pub struct ServerVariable {
    /// The values the variable may take (`enum` in the document).
    pub enum_values: Option<Vec<ServerVariableValue>>,
    pub default: ServerVariableValue,
    pub description: Option<ServerVariableDescription>,
}

#[derive(Debug)]
pub enum ServerVariableDescriptionTag {
    Marker,
}

pub type ServerVariableDescription = TaggedString<ServerVariableDescriptionTag>;

#[derive(Debug)]
pub enum ServerVariableValueTag {
    Marker,
}

pub type ServerVariableValue = TaggedString<ServerVariableValueTag>;

} // verus!
