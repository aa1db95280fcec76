//! The components section: named, reusable definitions.
use crate::schema::data_type::DataType;
use crate::schema::parameter::{Parameter, ParameterOrReference};
use crate::schema::request_body::{RequestBody, RequestBodyOrReference};
use crate::schema::response::{Response, ResponseOrReference};
use crate::schema::sref::{
    after_prefix, parameters_prefix, request_bodies_prefix, responses_prefix, SRefParameter,
    SRefRequestBody, SRefResponsesName, SRefSchemasObjectName,
};
use crate::typing::TaggedString;
use vstd::prelude::*;

verus! {

/// Named definitions, each list in declaration order with unique names.
#[derive(Debug)]
pub struct Components {
    pub schemas: Option<Vec<(SRefSchemasObjectName, DataType)>>,
    pub responses: Option<Vec<(SRefResponsesName, ResponseOrReference)>>,
    pub parameters: Option<Vec<(SRefParameter, ParameterOrReference)>>,
    pub request_bodies: Option<Vec<(SRefRequestBody, RequestBodyOrReference)>>,
}

/// How many indirections a lookup follows before it gives up.
pub const MAX_DEPTH: u32 = 1024;

/// Index of the first entry at or after `from` whose name is `name`, or -1.
pub open spec fn key_index<T, V>(entries: Seq<(TaggedString<T>, V)>, name: Seq<char>, from: int) -> int
    decreases entries.len() - from,
{
    if from < 0 || from >= entries.len() {
        -1
    } else if entries[from].0@ == name {
        from
    } else {
        key_index(entries, name, from + 1)
    }
}

pub proof fn lemma_key_index_bounds<T, V>(entries: Seq<(TaggedString<T>, V)>, name: Seq<char>, from: int)
    requires
        0 <= from,
    ensures
        key_index(entries, name, from) == -1 || (from <= key_index(entries, name, from) < entries.len()
            && entries[key_index(entries, name, from)].0@ == name),
    decreases entries.len() - from,
{
    if from < entries.len() && entries[from].0@ != name {
        lemma_key_index_bounds(entries, name, from + 1);
    }
}

/// The entry named `name`, if any.
pub open spec fn entry_of<'a, T, V>(entries: &'a Vec<(TaggedString<T>, V)>, name: Seq<char>) -> Option<&'a (TaggedString<T>, V)> {
    let i = key_index(entries@, name, 0);
    if 0 <= i < entries@.len() {
        Some(&entries@[i])
    } else {
        None
    }
}

/// Finds the first entry named `name`.
pub fn find_entry<'a, T, V>(entries: &'a Vec<(TaggedString<T>, V)>, name: &str) -> (r: Option<&'a (TaggedString<T>, V)>)
    ensures
        r == entry_of(entries, name@),
{
    proof {
        lemma_key_index_bounds(entries@, name@, 0);
    }
    let mut i: usize = 0;
    while i < entries.len()
        invariant
            i <= entries@.len(),
            key_index(entries@, name@, 0) == key_index(entries@, name@, i as int),
        decreases entries@.len() - i,
    {
        if crate::text::same_text(entries[i].0.as_str(), name) {
            return Some(&entries[i]);
        }
        i = i + 1;
    }
    None
}

impl Components {
    /// The schema definition named `name`, with the name as stored.
    pub open spec fn schema_entry<'a>(&'a self, name: Seq<char>) -> Option<&'a (SRefSchemasObjectName, DataType)> {
        match &self.schemas {
            Some(s) => entry_of(s, name),
            None => None,
        }
    }

    /// The parameter named `name`, following references through the
    /// parameters section, at most `MAX_DEPTH - depth` of them.
    pub open spec fn parameter_at<'a>(&'a self, name: Seq<char>, depth: int) -> Option<&'a Parameter>
        decreases 1025 - depth,
    {
        if depth > 1024 {
            None
        } else {
            match &self.parameters {
                None => None,
                Some(ps) => match entry_of(ps, name) {
                    None => None,
                    Some(e) => match &e.1 {
                        ParameterOrReference::Parameter(p) => Some(p),
                        ParameterOrReference::Reference(r) => match after_prefix(r.sref@, parameters_prefix()) {
                            Some(n) => self.parameter_at(n, depth + 1),
                            None => None,
                        },
                    },
                },
            }
        }
    }

    /// The request body named `name`, following references as `parameter_at` does.
    pub open spec fn request_body_at<'a>(&'a self, name: Seq<char>, depth: int) -> Option<&'a RequestBody>
        decreases 1025 - depth,
    {
        if depth > 1024 {
            None
        } else {
            match &self.request_bodies {
                None => None,
                Some(bs) => match entry_of(bs, name) {
                    None => None,
                    Some(e) => match &e.1 {
                        RequestBodyOrReference::RequestBody(b) => Some(b),
                        RequestBodyOrReference::Reference(r) => match after_prefix(r@, request_bodies_prefix()) {
                            Some(n) => self.request_body_at(n, depth + 1),
                            None => None,
                        },
                    },
                },
            }
        }
    }

    /// The response named `name`, following references as `parameter_at` does.
    pub open spec fn response_at<'a>(&'a self, name: Seq<char>, depth: int) -> Option<&'a Response>
        decreases 1025 - depth,
    {
        if depth > 1024 {
            None
        } else {
            match &self.responses {
                None => None,
                Some(rs) => match entry_of(rs, name) {
                    None => None,
                    Some(e) => match &e.1 {
                        ResponseOrReference::Response(b) => Some(b),
                        ResponseOrReference::Reference(r) => match after_prefix(r.sref@, responses_prefix()) {
                            Some(n) => self.response_at(n, depth + 1),
                            None => None,
                        },
                    },
                },
            }
        }
    }

    /// The schema definition named `name`, with the name as stored.
    pub fn find_schema<'a>(&'a self, name: &str) -> (r: Option<&'a (SRefSchemasObjectName, DataType)>)
        ensures
            r == self.schema_entry(name@),
    {
        match &self.schemas {
            Some(s) => find_entry(s, name),
            None => None,
        }
    }

    pub fn find_parameter(&self, sref: &SRefParameter) -> (r: Option<&Parameter>)
        ensures
            r == self.parameter_at(sref@, 0),
    {
        self.do_find_parameter(sref.as_str(), 0)
    }

    fn do_find_parameter(&self, name: &str, depth: u32) -> (r: Option<&Parameter>)
        requires
            depth <= 1025,
        ensures
            r == self.parameter_at(name@, depth as int),
        decreases 1025 - depth,
    {
        if depth > MAX_DEPTH {
            return None;
        }
        match &self.parameters {
            None => None,
            Some(ps) => match find_entry(ps, name) {
                None => None,
                Some(e) => match &e.1 {
                    ParameterOrReference::Parameter(p) => Some(p),
                    ParameterOrReference::Reference(r) => match r.sref.parameter_sref() {
                        Some(n) => self.do_find_parameter(n.as_str(), depth + 1),
                        None => None,
                    },
                },
            },
        }
    }

    pub fn find_request_body(&self, sref: &SRefRequestBody) -> (r: Option<&RequestBody>)
        ensures
            r == self.request_body_at(sref@, 0),
    {
        self.do_find_request_body(sref.as_str(), 0)
    }

    fn do_find_request_body(&self, name: &str, depth: u32) -> (r: Option<&RequestBody>)
        requires
            depth <= 1025,
        ensures
            r == self.request_body_at(name@, depth as int),
        decreases 1025 - depth,
    {
        if depth > MAX_DEPTH {
            return None;
        }
        match &self.request_bodies {
            None => None,
            Some(bs) => match find_entry(bs, name) {
                None => None,
                Some(e) => match &e.1 {
                    RequestBodyOrReference::RequestBody(b) => Some(b),
                    RequestBodyOrReference::Reference(r) => match r.request_body_sref() {
                        Some(n) => self.do_find_request_body(n.as_str(), depth + 1),
                        None => None,
                    },
                },
            },
        }
    }

    pub fn find_response(&self, sref: &SRefResponsesName) -> (r: Option<&Response>)
        ensures
            r == self.response_at(sref@, 0),
    {
        self.do_find_response(sref.as_str(), 0)
    }

    fn do_find_response(&self, name: &str, depth: u32) -> (r: Option<&Response>)
        requires
            depth <= 1025,
        ensures
            r == self.response_at(name@, depth as int),
        decreases 1025 - depth,
    {
        if depth > MAX_DEPTH {
            return None;
        }
        match &self.responses {
            None => None,
            Some(rs) => match find_entry(rs, name) {
                None => None,
                Some(e) => match &e.1 {
                    ResponseOrReference::Response(b) => Some(b),
                    ResponseOrReference::Reference(r) => match r.sref.responses_sref() {
                        Some(n) => self.do_find_response(n.as_str(), depth + 1),
                        None => None,
                    },
                },
            },
        }
    }
}

} // verus!
