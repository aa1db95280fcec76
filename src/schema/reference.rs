//! Reference objects.
use crate::schema::SRef;
use vstd::prelude::*;

verus! {

/// An object whose only key is `$ref`.
#[derive(Debug)]
pub struct Reference {
    pub sref: SRef,
}

} // verus!
