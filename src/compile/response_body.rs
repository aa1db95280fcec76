//! Compilation of responses.
use crate::compile::data_type::{TypeOrSchemaRef, TypeRef};
use crate::compile::request_body::{
    assoc_index, assoc_insert, compile_json, json_spec, merged_top, opt_components, BodiesModel, BodyRef,
    Frames,
};
use crate::compile::schema_compiler::{no_schemas, Error as SchemaCompileError};
use crate::compile::stack::{Schemas, SchemasModel, Stack};
use crate::schema::components::Components;
use crate::schema::media_type::Content;
use crate::schema::reference::Reference as SchemaReference;
use crate::schema::response::ResponseOrReference as SchemaResponseOrReference;
use crate::schema::sref::{after_prefix, responses_prefix, SRefResponsesName};
use crate::text::same_text;
use vstd::prelude::*;

verus! {

#[derive(Debug)]
pub struct ResponseBody<'a> {
    pub json_type_or_ref: Option<TypeOrSchemaRef<'a>>,
}

impl<'a> ResponseBody<'a> {
    pub open spec fn model(&self) -> Option<TypeRef<'a>> {
        match &self.json_type_or_ref {
            Some(t) => Some(t.model()),
            None => None,
        }
    }
}

#[derive(Debug)]
pub enum ResponseBodyOrReference<'a> {
    Body(ResponseBody<'a>),
    Reference(SRefResponsesName),
}

#[derive(Debug)]
pub enum Error<'a> {
    JsonCompile(SchemaCompileError<'a>),
    WrongReference(&'a SchemaReference),
}

/// Compiled responses by name.
#[derive(Debug)]
pub struct ResponseBodies<'a> {
    pub entries: Vec<(SRefResponsesName, ResponseBody<'a>)>,
}

impl<'a> ResponseBodies<'a> {
    pub open spec fn model(&self) -> BodiesModel<'a> {
        self.entries@.map_values(|e: (SRefResponsesName, ResponseBody<'a>)| (e.0@, e.1.model()))
    }

    pub fn new() -> (r: Self)
        ensures
            r.model() == Seq::<(Seq<char>, Option<TypeRef<'a>>)>::empty(),
    {
        let r = ResponseBodies { entries: Vec::new() };
        assert(r.model() =~= Seq::<(Seq<char>, Option<TypeRef<'a>>)>::empty());
        r
    }

    fn position(&self, name: &str) -> (r: Option<usize>)
        ensures
            match r {
                Some(i) => i as int == assoc_index(self.model(), name@, 0) && i < self.entries@.len(),
                None => assoc_index(self.model(), name@, 0) == -1,
            },
    {
        let ghost m = self.model();
        let mut i: usize = 0;
        while i < self.entries.len()
            invariant
                i <= self.entries@.len(),
                m == self.model(),
                assoc_index(m, name@, 0) == assoc_index(m, name@, i as int),
            decreases self.entries@.len() - i,
        {
            if same_text(self.entries[i].0.as_str(), name) {
                assert(m[i as int].0 == name@);
                return Some(i);
            }
            i = i + 1;
        }
        None
    }

    pub fn contains_key(&self, name: &str) -> (r: bool)
        ensures
            r == (assoc_index(self.model(), name@, 0) >= 0),
    {
        self.position(name).is_some()
    }

    pub fn insert(&mut self, k: SRefResponsesName, v: ResponseBody<'a>)
        ensures
            final(self).model() == assoc_insert(old(self).model(), k@, v.model()),
    {
        let ghost m = self.model();
        let ghost kv = (k@, v.model());
        match self.position(k.as_str()) {
            Some(i) => {
                self.entries.set(i, (k, v));
                assert(self.model() =~= m.update(i as int, kv));
            },
            None => {
                self.entries.push((k, v));
                assert(self.model() =~= m.push(kv));
            },
        }
    }
}

/// Compiling the JSON content of a response, which may have no content.
pub open spec fn response_json_spec<'a>(
    content: &'a Option<Content>,
    comps: Option<&'a Components>,
    chain: Seq<(Option<Seq<char>>, SchemasModel<'a>)>,
) -> Result<(Option<TypeRef<'a>>, SchemasModel<'a>), SchemaCompileError<'a>> {
    match content {
        Some(c) => json_spec(c, comps, chain),
        None => Ok((None, no_schemas())),
    }
}

fn compile_response_json<'a>(
    content: &'a Option<Content>,
    components: Option<&'a Components>,
    stack: &mut Stack<'a>,
) -> (r: Result<(Option<TypeOrSchemaRef<'a>>, Schemas<'a>), SchemaCompileError<'a>>)
    requires
        old(stack).model().len() > 0,
    ensures
        final(stack).model() == old(stack).model(),
        match response_json_spec(content, components, old(stack).model()) {
            Ok((t, s)) => r matches Ok((x, sc)) && sc.model() == s && match x {
                Some(y) => t == Some(y.model()),
                None => t is None,
            },
            Err(e) => r matches Err(x) && x == e,
        },
{
    match content {
        Some(c) => compile_json(c, components, stack),
        None => Ok((None, Schemas::new())),
    }
}

/// How a response of an operation was compiled.
pub enum CompileResult<'a> {
    /// A reference to a response compiled before.
    Existing(SRefResponsesName),
    /// A reference to a response compiled now.
    New((SRefResponsesName, ResponseBody<'a>, Schemas<'a>)),
    /// A response written in place.
    DataType((ResponseBody<'a>, Schemas<'a>)),
}

/// The response a name leads to in the components section.
pub open spec fn response_target<'a>(comps: &'a Option<Components>, n: Seq<char>) -> Option<&'a crate::schema::response::Response> {
    match comps {
        Some(c) => c.response_at(n, 0),
        None => None,
    }
}

/// Compiles a response; a named one already in `response_bodies` is not
/// compiled again.
pub fn compile_response<'a>(
    components: &'a Option<Components>,
    stack: &mut Stack<'a>,
    response_bodies: &ResponseBodies<'a>,
    sresp: &'a SchemaResponseOrReference,
) -> (r: Result<CompileResult<'a>, Error<'a>>)
    requires
        old(stack).model().len() > 0,
    ensures
        final(stack).model() == old(stack).model(),
        match sresp {
            SchemaResponseOrReference::Response(b) => match response_json_spec(&b.content, opt_components(components), old(stack).model()) {
                Ok((t, s)) => r matches Ok(CompileResult::DataType((body, sc))) && body.model() == t && sc.model() == s,
                Err(e) => r matches Err(Error::JsonCompile(x)) && x == e,
            },
            SchemaResponseOrReference::Reference(rf) => match after_prefix(rf.sref@, responses_prefix()) {
                None => r matches Err(Error::WrongReference(x)) && x == rf,
                Some(n) => if assoc_index(response_bodies.model(), n, 0) >= 0 {
                    r matches Ok(CompileResult::Existing(k)) && k@ == n
                } else {
                    match response_target(components, n) {
                        None => r matches Err(Error::WrongReference(x)) && x == rf,
                        Some(b) => match response_json_spec(&b.content, opt_components(components), old(stack).model()) {
                            Ok((t, s)) => r matches Ok(CompileResult::New((k, body, sc))) && k@ == n
                                && body.model() == t && sc.model() == s,
                            Err(e) => r matches Err(Error::JsonCompile(x)) && x == e,
                        },
                    }
                },
            },
        },
{
    let comps = match components {
        Some(c) => Some(c),
        None => None,
    };
    match sresp {
        SchemaResponseOrReference::Response(b) => match compile_response_json(&b.content, comps, stack) {
            Ok((t, s)) => Ok(CompileResult::DataType((ResponseBody { json_type_or_ref: t }, s))),
            Err(e) => Err(Error::JsonCompile(e)),
        },
        SchemaResponseOrReference::Reference(rf) => {
            let name = match rf.sref.responses_sref() {
                Some(n) => n,
                None => return Err(Error::WrongReference(rf)),
            };
            if response_bodies.contains_key(name.as_str()) {
                return Ok(CompileResult::Existing(name));
            }
            let c = match components {
                Some(c) => c,
                None => return Err(Error::WrongReference(rf)),
            };
            let b = match c.find_response(&name) {
                Some(b) => b,
                None => return Err(Error::WrongReference(rf)),
            };
            match compile_response_json(&b.content, comps, stack) {
                Ok((t, s)) => Ok(CompileResult::New((name, ResponseBody { json_type_or_ref: t }, s))),
                Err(e) => Err(Error::JsonCompile(e)),
            }
        },
    }
}

impl<'a> CompileResult<'a> {
    /// Records the result: a response compiled now joins `response_bodies`,
    /// the named types it introduced join the innermost scope of `stack`.
    pub fn aggregate(self, response_bodies: &mut ResponseBodies<'a>, stack: &mut Stack<'a>) -> (r: ResponseBodyOrReference<'a>)
        requires
            old(stack).model().len() > 0,
        ensures
            match self {
                CompileResult::Existing(k) => r matches ResponseBodyOrReference::Reference(x) && x@ == k@
                    && final(response_bodies).model() == old(response_bodies).model()
                    && final(stack).model() == old(stack).model(),
                CompileResult::New((k, body, s)) => r matches ResponseBodyOrReference::Reference(x) && x@ == k@
                    && final(response_bodies).model() == assoc_insert(old(response_bodies).model(), k@, body.model())
                    && final(stack).model() == merged_top(old(stack).model(), s.model()),
                CompileResult::DataType((body, s)) => r matches ResponseBodyOrReference::Body(b) && b.model() == body.model()
                    && final(response_bodies).model() == old(response_bodies).model()
                    && final(stack).model() == merged_top(old(stack).model(), s.model()),
            },
    {
        match self {
            CompileResult::Existing(k) => ResponseBodyOrReference::Reference(k),
            CompileResult::New((k, body, s)) => {
                let key = k.duplicate();
                response_bodies.insert(k, body);
                stack.merge(s);
                ResponseBodyOrReference::Reference(key)
            },
            CompileResult::DataType((body, s)) => {
                stack.merge(s);
                ResponseBodyOrReference::Body(body)
            },
        }
    }
}

impl<'a> ResponseBodyOrReference<'a> {
    pub open spec fn model(&self) -> BodyRef<'a> {
        match self {
            ResponseBodyOrReference::Body(b) => BodyRef::Body(b.model()),
            ResponseBodyOrReference::Reference(n) => BodyRef::Named(n@),
        }
    }
}

/// Compiling and recording a response, as `request_step` does a request body.
pub open spec fn response_step<'a>(
    comps: &'a Option<Components>,
    chain: Frames<'a>,
    bodies: BodiesModel<'a>,
    sresp: &'a SchemaResponseOrReference,
) -> Result<(BodyRef<'a>, Frames<'a>, BodiesModel<'a>), Error<'a>> {
    match sresp {
        SchemaResponseOrReference::Response(b) => match response_json_spec(&b.content, opt_components(comps), chain) {
            Ok((t, s)) => Ok((BodyRef::Body(t), merged_top(chain, s), bodies)),
            Err(e) => Err(Error::JsonCompile(e)),
        },
        SchemaResponseOrReference::Reference(rf) => match after_prefix(rf.sref@, responses_prefix()) {
            None => Err(Error::WrongReference(rf)),
            Some(n) => if assoc_index(bodies, n, 0) >= 0 {
                Ok((BodyRef::Named(n), chain, bodies))
            } else {
                match response_target(comps, n) {
                    None => Err(Error::WrongReference(rf)),
                    Some(b) => match response_json_spec(&b.content, opt_components(comps), chain) {
                        Ok((t, s)) => Ok((BodyRef::Named(n), merged_top(chain, s), assoc_insert(bodies, n, t))),
                        Err(e) => Err(Error::JsonCompile(e)),
                    },
                }
            },
        },
    }
}

} // verus!
