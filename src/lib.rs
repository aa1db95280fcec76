//! Reference resolution and flattening of OpenAPI type definitions.
//!
//! `schema` holds the read-only document model, `compile` turns its type
//! definitions into a flat, deduplicated set of resolved types.
use vstd::prelude::*;

pub mod compile;
pub mod model;
pub mod schema;
pub mod text;
pub mod typing;
