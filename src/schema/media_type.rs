//! Media type objects.
use crate::schema::data_type::DataType;
use vstd::prelude::*;

verus! {

#[derive(Debug)]
pub struct MediaType {
    pub schema: Option<DataType>,
}

/// Content by media type name, in declaration order.
pub type Content = Vec<(String, MediaType)>;

} // verus!
