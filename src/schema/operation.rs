//! Operation objects.
use crate::schema::info::ExternalDoc;
use crate::schema::parameter::ParameterOrReference;
use crate::schema::request_body::RequestBodyOrReference;
use crate::schema::response::Responses;
use crate::schema::ApiDocTag;
use crate::typing::TaggedString;
use vstd::prelude::*;

verus! {

#[derive(Debug)]
pub struct Operation {
    pub tags: Option<Vec<ApiDocTag>>,
    pub summary: Option<Summary>,
    pub description: Option<Description>,
    pub external_docs: Option<ExternalDoc>,
    pub operation_id: Option<OperationId>,
    pub parameters: Option<Vec<ParameterOrReference>>,
    pub request_body: Option<RequestBodyOrReference>,
    pub responses: Option<Responses>,
}

#[derive(Debug)]
pub enum OperationSummaryTag {
    Marker,
}

pub type Summary = TaggedString<OperationSummaryTag>;

#[derive(Debug)]
pub enum OperationDescriptionTag {
    Marker,
}

pub type Description = TaggedString<OperationDescriptionTag>;

#[derive(Debug)]
pub enum OperationIdTag {
    Marker,
}

pub type OperationId = TaggedString<OperationIdTag>;

} // verus!
