//! Compilation of request bodies.
use crate::compile::data_type::{TypeOrSchemaRef, TypeRef};
use crate::compile::schema_compiler::{child, compile, compile_spec, no_schemas, Error as SchemaCompileError};
use crate::compile::stack::{merge_model, Schemas, SchemasModel, Stack};
use crate::schema::components::Components;
use crate::schema::data_type::DataType as SchemaDataType;
use crate::schema::media_type::Content;
use crate::schema::request_body::RequestBodyOrReference as SchemaRequestBodyOrReference;
use crate::schema::sref::{after_prefix, request_bodies_prefix, SRef, SRefRequestBody};
use crate::text::same_text;
use vstd::prelude::*;

verus! {

#[derive(Debug)]
pub struct RequestBody<'a> {
    pub json_type_or_ref: Option<TypeOrSchemaRef<'a>>,
}

impl<'a> RequestBody<'a> {
    pub open spec fn model(&self) -> Option<TypeRef<'a>> {
        match &self.json_type_or_ref {
            Some(t) => Some(t.model()),
            None => None,
        }
    }
}

#[derive(Debug)]
pub enum RequestBodyOrReference<'a> {
    Body(RequestBody<'a>),
    Reference(SRefRequestBody),
}

#[derive(Debug)]
pub enum Error<'a> {
    JsonCompile(SchemaCompileError<'a>),
    WrongReference(&'a SRef),
}

/// Model of a map from names to compiled bodies, in insertion order.
pub type BodiesModel<'a> = Seq<(Seq<char>, Option<TypeRef<'a>>)>;

/// Index of the first entry at or after `from` named `k`, or -1.
pub open spec fn assoc_index<V>(s: Seq<(Seq<char>, V)>, k: Seq<char>, from: int) -> int
    decreases s.len() - from,
{
    if from < 0 || from >= s.len() {
        -1
    } else if s[from].0 == k {
        from
    } else {
        assoc_index(s, k, from + 1)
    }
}

/// `s` with `k` bound to `v`: replaced in place when present, else appended.
pub open spec fn assoc_insert<V>(s: Seq<(Seq<char>, V)>, k: Seq<char>, v: V) -> Seq<(Seq<char>, V)> {
    let i = assoc_index(s, k, 0);
    if i >= 0 {
        s.update(i, (k, v))
    } else {
        s.push((k, v))
    }
}

/// Compiled request bodies by name.
#[derive(Debug)]
pub struct RequestBodies<'a> {
    pub entries: Vec<(SRefRequestBody, RequestBody<'a>)>,
}

impl<'a> RequestBodies<'a> {
    pub open spec fn model(&self) -> BodiesModel<'a> {
        self.entries@.map_values(|e: (SRefRequestBody, RequestBody<'a>)| (e.0@, e.1.model()))
    }

    pub fn new() -> (r: Self)
        ensures
            r.model() == Seq::<(Seq<char>, Option<TypeRef<'a>>)>::empty(),
    {
        let r = RequestBodies { entries: Vec::new() };
        assert(r.model() =~= Seq::<(Seq<char>, Option<TypeRef<'a>>)>::empty());
        r
    }

    fn position(&self, name: &str) -> (r: Option<usize>)
        ensures
            match r {
                Some(i) => i as int == assoc_index(self.model(), name@, 0) && i < self.entries@.len(),
                None => assoc_index(self.model(), name@, 0) == -1,
            },
    {
        let ghost m = self.model();
        let mut i: usize = 0;
        while i < self.entries.len()
            invariant
                i <= self.entries@.len(),
                m == self.model(),
                assoc_index(m, name@, 0) == assoc_index(m, name@, i as int),
            decreases self.entries@.len() - i,
        {
            if same_text(self.entries[i].0.as_str(), name) {
                assert(m[i as int].0 == name@);
                return Some(i);
            }
            i = i + 1;
        }
        None
    }

    pub fn contains_key(&self, name: &str) -> (r: bool)
        ensures
            r == (assoc_index(self.model(), name@, 0) >= 0),
    {
        self.position(name).is_some()
    }

    pub fn insert(&mut self, k: SRefRequestBody, v: RequestBody<'a>)
        ensures
            final(self).model() == assoc_insert(old(self).model(), k@, v.model()),
    {
        let ghost m = self.model();
        let ghost kv = (k@, v.model());
        match self.position(k.as_str()) {
            Some(i) => {
                self.entries.set(i, (k, v));
                assert(self.model() =~= m.update(i as int, kv));
            },
            None => {
                self.entries.push((k, v));
                assert(self.model() =~= m.push(kv));
            },
        }
    }
}

/// Position of the first `application/json` entry from the `i`-th on, or -1.
pub open spec fn json_index(c: Seq<(String, crate::schema::media_type::MediaType)>, i: int) -> int
    decreases c.len() - i,
{
    if i < 0 || i >= c.len() {
        -1
    } else if c[i].0@ == "application/json"@ {
        i
    } else {
        json_index(c, i + 1)
    }
}

/// The schema of the `application/json` content, if any.
pub open spec fn json_schema<'a>(content: &'a Content) -> Option<&'a SchemaDataType> {
    let i = json_index(content@, 0);
    if 0 <= i < content@.len() {
        match &content@[i].1.schema {
            Some(s) => Some(s),
            None => None,
        }
    } else {
        None
    }
}

pub open spec fn opt_components<'a>(c: &'a Option<Components>) -> Option<&'a Components> {
    match c {
        Some(x) => Some(x),
        None => None,
    }
}

/// Compiling the JSON content of a body at depth 0, in a scope of its own
/// below `chain`: its type, if it has one, and the named types introduced.
pub open spec fn json_spec<'a>(
    content: &'a Content,
    comps: Option<&'a Components>,
    chain: Seq<(Option<Seq<char>>, SchemasModel<'a>)>,
) -> Result<(Option<TypeRef<'a>>, SchemasModel<'a>), SchemaCompileError<'a>> {
    match json_schema(content) {
        None => Ok((None, no_schemas())),
        Some(sdt) => match compile_spec(sdt, comps, child(chain, None, no_schemas()), 0) {
            Ok((t, s)) => Ok((Some(t), merge_model(no_schemas(), s))),
            Err(e) => Err(e),
        },
    }
}

/// `m` with `s` merged into its innermost frame.
pub open spec fn merged_top<'a>(m: Seq<(Option<Seq<char>>, SchemasModel<'a>)>, s: SchemasModel<'a>) -> Seq<(Option<Seq<char>>, SchemasModel<'a>)> {
    m.update(m.len() - 1, (m.last().0, merge_model(m.last().1, s)))
}

fn find_json<'a>(content: &'a Content) -> (r: Option<&'a SchemaDataType>)
    ensures
        r == json_schema(content),
{
    let mut i: usize = 0;
    while i < content.len()
        invariant
            i <= content@.len(),
            json_index(content@, 0) == json_index(content@, i as int),
        decreases content@.len() - i,
    {
        if same_text(content[i].0.as_str(), "application/json") {
            proof {
                reveal_strlit("application/json");
            }
            return match &content[i].1.schema {
                Some(s) => Some(s),
                None => None,
            };
        }
        proof {
            reveal_strlit("application/json");
        }
        i = i + 1;
    }
    None
}

/// Compiles the JSON content of a body as `json_spec` says.
pub fn compile_json<'a>(
    content: &'a Content,
    components: Option<&'a Components>,
    stack: &mut Stack<'a>,
) -> (r: Result<(Option<TypeOrSchemaRef<'a>>, Schemas<'a>), SchemaCompileError<'a>>)
    requires
        old(stack).model().len() > 0,
    ensures
        final(stack).model() == old(stack).model(),
        match json_spec(content, components, old(stack).model()) {
            Ok((t, s)) => r matches Ok((x, sc)) && sc.model() == s && match x {
                Some(y) => t == Some(y.model()),
                None => t is None,
            },
            Err(e) => r matches Err(x) && x == e,
        },
{
    let ghost base = stack.model();
    match find_json(content) {
        None => Ok((None, Schemas::new())),
        Some(sdt) => {
            stack.push();
            let res = compile(sdt, components, stack, 0);
            let mut s = stack.pop();
            assert(stack.model() =~= base);
            match res {
                Ok(d) => {
                    s.merge(d.schemas);
                    Ok((Some(d.type_or_ref), s))
                },
                Err(e) => Err(e),
            }
        },
    }
}

/// How a body of an operation was compiled.
pub enum CompileResult<'a> {
    /// A reference to a body compiled before.
    Existing(SRefRequestBody),
    /// A reference to a body compiled now.
    New((SRefRequestBody, RequestBody<'a>, Schemas<'a>)),
    /// A body written in place.
    DataType((RequestBody<'a>, Schemas<'a>)),
}

/// The request body a name leads to in the components section.
pub open spec fn body_target<'a>(comps: &'a Option<Components>, n: Seq<char>) -> Option<&'a crate::schema::request_body::RequestBody> {
    match comps {
        Some(c) => c.request_body_at(n, 0),
        None => None,
    }
}

/// Compiles a request body; a named one already in `request_bodies` is not
/// compiled again.
pub fn compile_body<'a>(
    components: &'a Option<Components>,
    stack: &mut Stack<'a>,
    request_bodies: &RequestBodies<'a>,
    sbody: &'a SchemaRequestBodyOrReference,
) -> (r: Result<CompileResult<'a>, Error<'a>>)
    requires
        old(stack).model().len() > 0,
    ensures
        final(stack).model() == old(stack).model(),
        match sbody {
            SchemaRequestBodyOrReference::RequestBody(b) => match json_spec(&b.content, opt_components(components), old(stack).model()) {
                Ok((t, s)) => r matches Ok(CompileResult::DataType((body, sc))) && body.model() == t && sc.model() == s,
                Err(e) => r matches Err(Error::JsonCompile(x)) && x == e,
            },
            SchemaRequestBodyOrReference::Reference(sref) => match after_prefix(sref@, request_bodies_prefix()) {
                None => r matches Err(Error::WrongReference(x)) && x == sref,
                Some(n) => if assoc_index(request_bodies.model(), n, 0) >= 0 {
                    r matches Ok(CompileResult::Existing(k)) && k@ == n
                } else {
                    match body_target(components, n) {
                        None => r matches Err(Error::WrongReference(x)) && x == sref,
                        Some(b) => match json_spec(&b.content, opt_components(components), old(stack).model()) {
                            Ok((t, s)) => r matches Ok(CompileResult::New((k, body, sc))) && k@ == n
                                && body.model() == t && sc.model() == s,
                            Err(e) => r matches Err(Error::JsonCompile(x)) && x == e,
                        },
                    }
                },
            },
        },
{
    let comps = match components {
        Some(c) => Some(c),
        None => None,
    };
    match sbody {
        SchemaRequestBodyOrReference::RequestBody(b) => match compile_json(&b.content, comps, stack) {
            Ok((t, s)) => Ok(CompileResult::DataType((RequestBody { json_type_or_ref: t }, s))),
            Err(e) => Err(Error::JsonCompile(e)),
        },
        SchemaRequestBodyOrReference::Reference(sref) => {
            let name = match sref.request_body_sref() {
                Some(n) => n,
                None => return Err(Error::WrongReference(sref)),
            };
            if request_bodies.contains_key(name.as_str()) {
                return Ok(CompileResult::Existing(name));
            }
            let c = match components {
                Some(c) => c,
                None => return Err(Error::WrongReference(sref)),
            };
            let b = match c.find_request_body(&name) {
                Some(b) => b,
                None => return Err(Error::WrongReference(sref)),
            };
            match compile_json(&b.content, comps, stack) {
                Ok((t, s)) => Ok(CompileResult::New((name, RequestBody { json_type_or_ref: t }, s))),
                Err(e) => Err(Error::JsonCompile(e)),
            }
        },
    }
}

impl<'a> CompileResult<'a> {
    /// Records the result: a body compiled now joins `request_bodies`, the
    /// named types it introduced join the innermost scope of `stack`.
    pub fn aggregate(self, request_bodies: &mut RequestBodies<'a>, stack: &mut Stack<'a>) -> (r: RequestBodyOrReference<'a>)
        requires
            old(stack).model().len() > 0,
        ensures
            match self {
                CompileResult::Existing(k) => r matches RequestBodyOrReference::Reference(x) && x@ == k@
                    && final(request_bodies).model() == old(request_bodies).model()
                    && final(stack).model() == old(stack).model(),
                CompileResult::New((k, body, s)) => r matches RequestBodyOrReference::Reference(x) && x@ == k@
                    && final(request_bodies).model() == assoc_insert(old(request_bodies).model(), k@, body.model())
                    && final(stack).model() == merged_top(old(stack).model(), s.model()),
                CompileResult::DataType((body, s)) => r matches RequestBodyOrReference::Body(b) && b.model() == body.model()
                    && final(request_bodies).model() == old(request_bodies).model()
                    && final(stack).model() == merged_top(old(stack).model(), s.model()),
            },
    {
        match self {
            CompileResult::Existing(k) => RequestBodyOrReference::Reference(k),
            CompileResult::New((k, body, s)) => {
                let key = k.duplicate();
                request_bodies.insert(k, body);
                stack.merge(s);
                RequestBodyOrReference::Reference(key)
            },
            CompileResult::DataType((body, s)) => {
                stack.merge(s);
                RequestBodyOrReference::Body(body)
            },
        }
    }
}

/// Model of a compiled body or of a reference to a named one.
pub enum BodyRef<'a> {
    Body(Option<TypeRef<'a>>),
    Named(Seq<char>),
}

impl<'a> RequestBodyOrReference<'a> {
    pub open spec fn model(&self) -> BodyRef<'a> {
        match self {
            RequestBodyOrReference::Body(b) => BodyRef::Body(b.model()),
            RequestBodyOrReference::Reference(n) => BodyRef::Named(n@),
        }
    }
}

pub type Frames<'a> = Seq<(Option<Seq<char>>, SchemasModel<'a>)>;

/// Compiling and recording a request body, from the scope chain `chain` and
/// the bodies compiled so far: its model, and the chain and bodies after.
pub open spec fn request_step<'a>(
    comps: &'a Option<Components>,
    chain: Frames<'a>,
    bodies: BodiesModel<'a>,
    sbody: &'a SchemaRequestBodyOrReference,
) -> Result<(BodyRef<'a>, Frames<'a>, BodiesModel<'a>), Error<'a>> {
    match sbody {
        SchemaRequestBodyOrReference::RequestBody(b) => match json_spec(&b.content, opt_components(comps), chain) {
            Ok((t, s)) => Ok((BodyRef::Body(t), merged_top(chain, s), bodies)),
            Err(e) => Err(Error::JsonCompile(e)),
        },
        SchemaRequestBodyOrReference::Reference(sref) => match after_prefix(sref@, request_bodies_prefix()) {
            None => Err(Error::WrongReference(sref)),
            Some(n) => if assoc_index(bodies, n, 0) >= 0 {
                Ok((BodyRef::Named(n), chain, bodies))
            } else {
                match body_target(comps, n) {
                    None => Err(Error::WrongReference(sref)),
                    Some(b) => match json_spec(&b.content, opt_components(comps), chain) {
                        Ok((t, s)) => Ok((BodyRef::Named(n), merged_top(chain, s), assoc_insert(bodies, n, t))),
                        Err(e) => Err(Error::JsonCompile(e)),
                    },
                }
            },
        },
    }
}

} // verus!
