//! The schema compiler: resolves references, breaks cycles, memoizes named
//! schemas and bounds the nesting depth.
//!
//! `compile_spec` and its helpers state what compiling a definition yields;
//! the executable functions below are proved to yield exactly that.
use crate::compile::data_type::{
    lemma_props_model_push, lemma_refs_model_push, props_model,
    refs_model, ActualType, AllOfType, AnyOfType, CompiledArray, CompiledObject, CompiledType, DataType,
    NormalCompiledType, NormalShape, NullableCompiledType, NullableShape, OneOfType, Shape, Type,
    TypeOrSchemaRef, TypeRef,
};
use crate::compile::stack::{chain_contains, insert_model, merge_model, FrameModel, Schemas, SchemasModel, Stack};
use crate::schema::components::{entry_of, find_entry, lemma_key_index_bounds, Components};
use crate::schema::data_type::{
    ActualType as SchemaActualType, Array as SchemaArray, DataType as SchemaDataType,
    MaybeNullableTypeSchema, NullalbleTypeSchema, Object as SchemaObject, TypeSchema,
};
use crate::schema::reference::Reference;
use crate::schema::sref::{after_prefix, schema_key_of, schemas_prefix, SRef, SRefSchemas, SRefSchemasObjectName, SchemaKey};
use crate::schema::PropertyName;
use vstd::prelude::*;

verus! {

/// Nesting deeper than this fails with `MaxDepthReached`.
pub const MAX_DEPTH: u32 = 1024;

/// A shape that the compiler does not handle.
#[derive(Debug, PartialEq, Eq)]
pub enum Unsupported {
    /// `type: null`.
    NullType,
    /// `type: null` together with `nullable: true`.
    NullableNullType,
    /// `type: array` without `nullable`.
    ArrayType,
    /// A definition with no keys.
    EmptyType,
    /// A definition of no known shape.
    UnknownType,
}

/// Why a definition could not be compiled; each frame wraps the next.
#[derive(Debug)]
pub enum Error<'a> {
    /// A reference that does not point into the schemas section.
    UnexpectedReferenceType(&'a SRef),
    SchemasNotDefinedButReferenced,
    SchemaReferenceNotFound(&'a SRef),
    SchemaCompilation(&'a SRefSchemasObjectName, Box<Error<'a>>),
    PropertyCompilation(&'a PropertyName, Box<Error<'a>>),
    MaxDepthReached(u32),
    NoItemsInArray,
    ArrayItemCompilation(Box<Error<'a>>),
    ReferenceToIncompatibleObject(&'a SRef),
    PropertiesNotFoundInReferencedObject(&'a SRefSchemasObjectName),
    PropertyNotFoundInReferencedObject(&'a SRefSchemasObjectName, &'a SRef),
    ReferenceParseError(&'a SRef),
    NotImplemented(Unsupported),
}

/// A compiled type (or reference) together with the named types that its
/// compilation introduced.
#[derive(Debug)]
pub struct DataTypeWithSchema<'a> {
    pub schemas: Schemas<'a>,
    pub type_or_ref: TypeOrSchemaRef<'a>,
}

/// What compiling one definition yields.
pub type Outcome<'a> = Result<(TypeRef<'a>, SchemasModel<'a>), Error<'a>>;

pub type Chain<'a> = Seq<FrameModel<'a>>;

pub open spec fn outcome<'a>(r: Result<DataTypeWithSchema<'a>, Error<'a>>) -> Outcome<'a> {
    match r {
        Ok(d) => Ok((d.type_or_ref.model(), d.schemas.model())),
        Err(e) => Err(e),
    }
}

pub open spec fn no_schemas<'a>() -> SchemasModel<'a> {
    Seq::empty()
}

/// `chain` with a new innermost frame.
pub open spec fn child<'a>(chain: Chain<'a>, tag: Option<Seq<char>>, acc: SchemasModel<'a>) -> Chain<'a> {
    chain.push((tag, acc))
}

pub open spec fn scalar<'a>(shape: Shape<'a>, at: &'a SchemaActualType) -> Outcome<'a> {
    Ok((TypeRef::Inline(Type::Actual(shape, at.readonly, at.writeonly)), no_schemas()))
}

/// The object definition a property reference may point into.
pub open spec fn referenced_object<'a>(sdt: &'a SchemaDataType) -> Option<&'a SchemaObject> {
    match sdt {
        SchemaDataType::ActualType(at) => match &at.type_schema {
            MaybeNullableTypeSchema::Nullable(n) => match &n.schema {
                NullalbleTypeSchema::Object(o) => Some(o),
                _ => None,
            },
            MaybeNullableTypeSchema::Object(o) => Some(o),
            _ => None,
        },
        _ => None,
    }
}

/// Compiling `sdt` at nesting `depth` with scope chain `chain`.
pub open spec fn compile_spec<'a>(
    sdt: &'a SchemaDataType,
    comps: Option<&'a Components>,
    chain: Chain<'a>,
    depth: int,
) -> Outcome<'a>
    decreases 1025 - depth, 4int, 0int,
{
    if depth > 1024 {
        Err(Error::MaxDepthReached(depth as u32))
    } else {
        match sdt {
            SchemaDataType::Reference(r) => ref_spec(r, comps, chain, depth),
            SchemaDataType::ActualType(at) => actual_spec(at, comps, chain, depth),
            SchemaDataType::OneOf(u) => match members_spec(&u.one_of, 0, no_schemas(), comps, chain, depth) {
                Ok((l, s)) => Ok((TypeRef::Inline(Type::OneOf(l)), s)),
                Err(e) => Err(e),
            },
            SchemaDataType::AllOf(u) => match members_spec(&u.all_of, 0, no_schemas(), comps, chain, depth) {
                Ok((l, s)) => Ok((TypeRef::Inline(Type::AllOf(l)), s)),
                Err(e) => Err(e),
            },
            SchemaDataType::AnyOf(u) => match members_spec(&u.any_of, 0, no_schemas(), comps, chain, depth) {
                Ok((l, s)) => Ok((TypeRef::Inline(Type::AnyOf(l)), s)),
                Err(e) => Err(e),
            },
            SchemaDataType::Empty(_) => Err(Error::NotImplemented(Unsupported::EmptyType)),
            SchemaDataType::UnknownType(_) => Err(Error::NotImplemented(Unsupported::UnknownType)),
        }
    }
}

/// Compiling a concrete type.
pub open spec fn actual_spec<'a>(
    at: &'a SchemaActualType,
    comps: Option<&'a Components>,
    chain: Chain<'a>,
    depth: int,
) -> Outcome<'a>
    decreases 1025 - depth, 3int, 0int,
{
    match &at.type_schema {
        MaybeNullableTypeSchema::Nullable(n) => match &n.schema {
            NullalbleTypeSchema::Null => Err(Error::NotImplemented(Unsupported::NullableNullType)),
            NullalbleTypeSchema::Boolean(b) => scalar(Shape::Nullable(NullableShape::Boolean(b)), at),
            NullalbleTypeSchema::Integer(i) => scalar(Shape::Nullable(NullableShape::Integer(i)), at),
            NullalbleTypeSchema::Number(x) => scalar(Shape::Nullable(NullableShape::Number(x)), at),
            NullalbleTypeSchema::String(s) => scalar(Shape::Nullable(NullableShape::String(s)), at),
            NullalbleTypeSchema::Object(o) => match object_spec(o, comps, chain, depth) {
                Ok((ps, s)) => Ok((TypeRef::Inline(Type::Actual(Shape::Nullable(NullableShape::Object(ps)), false, false)), s)),
                Err(e) => Err(e),
            },
            NullalbleTypeSchema::Array(a) => match array_spec(a, comps, chain, depth) {
                Ok((t, s)) => Ok((TypeRef::Inline(Type::Actual(Shape::Nullable(NullableShape::Array(Box::new(t))), false, false)), s)),
                Err(e) => Err(e),
            },
        },
        MaybeNullableTypeSchema::Normal(t) => match t {
            TypeSchema::Null => Err(Error::NotImplemented(Unsupported::NullType)),
            TypeSchema::Array(_) => Err(Error::NotImplemented(Unsupported::ArrayType)),
            TypeSchema::Boolean(b) => scalar(Shape::Normal(NormalShape::Boolean(b)), at),
            TypeSchema::Integer(i) => scalar(Shape::Normal(NormalShape::Integer(i)), at),
            TypeSchema::Number(x) => scalar(Shape::Normal(NormalShape::Number(x)), at),
            TypeSchema::String(s) => scalar(Shape::Normal(NormalShape::String(s)), at),
        },
        MaybeNullableTypeSchema::Object(o) => match object_spec(o, comps, chain, depth) {
            Ok((ps, s)) => Ok((TypeRef::Inline(Type::Actual(Shape::Normal(NormalShape::Object(ps)), false, false)), s)),
            Err(e) => Err(e),
        },
        MaybeNullableTypeSchema::Array(a) => match array_spec(a, comps, chain, depth) {
            Ok((t, s)) => Ok((TypeRef::Inline(Type::Actual(Shape::Normal(NormalShape::Array(Box::new(t))), false, false)), s)),
            Err(e) => Err(e),
        },
    }
}

/// Compiling an object: its properties, in order, in one child scope.
pub open spec fn object_spec<'a>(
    o: &'a SchemaObject,
    comps: Option<&'a Components>,
    chain: Chain<'a>,
    depth: int,
) -> Result<(Seq<(Seq<char>, TypeRef<'a>)>, SchemasModel<'a>), Error<'a>>
    decreases 1025 - depth, 2int, 0int,
{
    match &o.properties {
        None => Ok((Seq::empty(), no_schemas())),
        Some(ps) => props_spec(ps, 0, no_schemas(), comps, chain, depth),
    }
}

/// Compiling the properties from the `i`-th on, `acc` being what the earlier
/// ones introduced; each property sees what its predecessors introduced.
pub open spec fn props_spec<'a>(
    ps: &'a Vec<(PropertyName, SchemaDataType)>,
    i: int,
    acc: SchemasModel<'a>,
    comps: Option<&'a Components>,
    chain: Chain<'a>,
    depth: int,
) -> Result<(Seq<(Seq<char>, TypeRef<'a>)>, SchemasModel<'a>), Error<'a>>
    decreases 1025 - depth, 1int, ps@.len() - i,
{
    if depth > 1024 {
        Err(Error::MaxDepthReached(depth as u32))
    } else if i < 0 || i >= ps@.len() {
        Ok((Seq::empty(), acc))
    } else {
        match compile_spec(&ps@[i].1, comps, child(chain, None, acc), depth + 1) {
            Err(e) => Err(Error::PropertyCompilation(&ps@[i].0, Box::new(e))),
            Ok((t, s)) => match props_spec(ps, i + 1, merge_model(acc, s), comps, chain, depth) {
                Err(e) => Err(e),
                Ok((l, a)) => Ok((seq![(ps@[i].0@, t)] + l, a)),
            },
        }
    }
}

/// Compiling the members of a combinator from the `i`-th on, all in one
/// child scope.
pub open spec fn members_spec<'a>(
    ms: &'a Vec<SchemaDataType>,
    i: int,
    acc: SchemasModel<'a>,
    comps: Option<&'a Components>,
    chain: Chain<'a>,
    depth: int,
) -> Result<(Seq<TypeRef<'a>>, SchemasModel<'a>), Error<'a>>
    decreases 1025 - depth, 1int, ms@.len() - i,
{
    if depth > 1024 {
        Err(Error::MaxDepthReached(depth as u32))
    } else if i < 0 || i >= ms@.len() {
        Ok((Seq::empty(), acc))
    } else {
        match compile_spec(&ms@[i], comps, child(chain, None, acc), depth + 1) {
            Err(e) => Err(e),
            Ok((t, s)) => match members_spec(ms, i + 1, merge_model(acc, s), comps, chain, depth) {
                Err(e) => Err(e),
                Ok((l, a)) => Ok((seq![t] + l, a)),
            },
        }
    }
}

/// Compiling the item type of an array in a child scope.
pub open spec fn array_spec<'a>(
    a: &'a SchemaArray,
    comps: Option<&'a Components>,
    chain: Chain<'a>,
    depth: int,
) -> Outcome<'a>
    decreases 1025 - depth, 2int, 0int,
{
    if depth > 1024 {
        Err(Error::MaxDepthReached(depth as u32))
    } else {
        match &a.items {
            None => Err(Error::NoItemsInArray),
            Some(it) => match compile_spec(&**it, comps, child(chain, None, no_schemas()), depth + 1) {
                Err(e) => Err(Error::ArrayItemCompilation(Box::new(e))),
                Ok((t, s)) => Ok((t, merge_model(no_schemas(), s))),
            },
        }
    }
}

/// Compiling a reference.  A whole-schema reference to a name in the chain
/// is emitted as is; otherwise the schema is compiled in a scope tagged with
/// its name, and an inline result is promoted under that name, while a
/// reference result (an alias) is forwarded, together with what it introduced.
pub open spec fn ref_spec<'a>(
    r: &'a Reference,
    comps: Option<&'a Components>,
    chain: Chain<'a>,
    depth: int,
) -> Outcome<'a>
    decreases 1025 - depth, 3int, 0int,
{
    if depth > 1024 {
        Err(Error::MaxDepthReached(depth as u32))
    } else {
        match after_prefix(r.sref@, schemas_prefix()) {
            None => Err(Error::UnexpectedReferenceType(&r.sref)),
            Some(t) => match schema_key_of(t) {
                None => Err(Error::ReferenceParseError(&r.sref)),
                Some(SchemaKey::Whole(name)) => if chain_contains(chain, name) {
                    Ok((TypeRef::Named(name), no_schemas()))
                } else {
                    match comps {
                        None => Err(Error::SchemasNotDefinedButReferenced),
                        Some(c) => match c.schema_entry(name) {
                            None => Err(Error::SchemaReferenceNotFound(&r.sref)),
                            Some(e) => match compile_spec(&e.1, comps, child(chain, Some(name), no_schemas()), depth + 1) {
                                Err(err) => Err(Error::SchemaCompilation(&e.0, Box::new(err))),
                                Ok((TypeRef::Inline(t), s)) => Ok((TypeRef::Named(name), insert_model(s, name, t))),
                                Ok((TypeRef::Named(n), s)) => Ok((TypeRef::Named(n), s)),
                            },
                        },
                    }
                },
                Some(SchemaKey::Property(name, pname)) => match comps {
                    None => Err(Error::SchemasNotDefinedButReferenced),
                    Some(c) => match c.schema_entry(name) {
                        None => Err(Error::SchemaReferenceNotFound(&r.sref)),
                        Some(e) => match referenced_object(&e.1) {
                            None => Err(Error::ReferenceToIncompatibleObject(&r.sref)),
                            Some(o) => match &o.properties {
                                None => Err(Error::PropertiesNotFoundInReferencedObject(&e.0)),
                                Some(ps) => match entry_of(ps, pname) {
                                    None => Err(Error::PropertyNotFoundInReferencedObject(&e.0, &r.sref)),
                                    Some(p) => compile_spec(&p.1, comps, child(chain, Some(name), no_schemas()), depth + 1),
                                },
                            },
                        },
                    },
                },
            },
        }
    }
}

/// `l0` put in front of the list of a successful result.
pub open spec fn prepend_props<'a>(
    l0: Seq<(Seq<char>, TypeRef<'a>)>,
    r: Result<(Seq<(Seq<char>, TypeRef<'a>)>, SchemasModel<'a>), Error<'a>>,
) -> Result<(Seq<(Seq<char>, TypeRef<'a>)>, SchemasModel<'a>), Error<'a>> {
    match r {
        Ok((l, a)) => Ok((l0 + l, a)),
        Err(e) => Err(e),
    }
}

/// `l0` put in front of the list of a successful result.
pub open spec fn prepend_refs<'a>(
    l0: Seq<TypeRef<'a>>,
    r: Result<(Seq<TypeRef<'a>>, SchemasModel<'a>), Error<'a>>,
) -> Result<(Seq<TypeRef<'a>>, SchemasModel<'a>), Error<'a>> {
    match r {
        Ok((l, a)) => Ok((l0 + l, a)),
        Err(e) => Err(e),
    }
}

impl<'a> DataTypeWithSchema<'a> {
    /// A concrete type with the flags of its definition; it introduces nothing.
    pub fn actual_type(at: &'a SchemaActualType, compiled_type: CompiledType<'a>) -> (r: Self)
        ensures
            r.schemas.model() == no_schemas::<'a>(),
            r.type_or_ref == (TypeOrSchemaRef::DataType(
                DataType::ActualType(
                    ActualType { compiled_type, readonly: at.readonly, writeonly: at.writeonly },
                ),
            )),
    {
        DataTypeWithSchema {
            schemas: Schemas::new(),
            type_or_ref: TypeOrSchemaRef::DataType(
                DataType::ActualType(
                    ActualType { compiled_type, readonly: at.readonly, writeonly: at.writeonly },
                ),
            ),
        }
    }
}

fn inline_actual<'a>(compiled_type: CompiledType<'a>, schemas: Schemas<'a>) -> (r: DataTypeWithSchema<'a>)
    ensures
        r.schemas == schemas,
        r.type_or_ref == (TypeOrSchemaRef::DataType(
            DataType::ActualType(ActualType { compiled_type, readonly: false, writeonly: false }),
        )),
{
    DataTypeWithSchema {
        schemas,
        type_or_ref: TypeOrSchemaRef::DataType(
            DataType::ActualType(ActualType { compiled_type, readonly: false, writeonly: false }),
        ),
    }
}

/// Compiles `sdt` at nesting `depth` within the scope chain `stack`; the
/// chain is left as it was found.
pub fn compile<'a>(
    sdt: &'a SchemaDataType,
    components: Option<&'a Components>,
    stack: &mut Stack<'a>,
    depth: u32,
) -> (r: Result<DataTypeWithSchema<'a>, Error<'a>>)
    requires
        old(stack).model().len() > 0,
    ensures
        final(stack).model() == old(stack).model(),
        outcome(r) == compile_spec(sdt, components, old(stack).model(), depth as int),
    decreases 1025 - depth, 4int, 0int,
{
    if depth > MAX_DEPTH {
        return Err(Error::MaxDepthReached(depth));
    }
    match sdt {
        SchemaDataType::Reference(r) => compile_ref(r, components, stack, depth),
        SchemaDataType::ActualType(at) => compile_actual(at, components, stack, depth),
        SchemaDataType::OneOf(u) => match compile_members(&u.one_of, components, stack, depth) {
            Ok((l, s)) => Ok(
                DataTypeWithSchema {
                    schemas: s,
                    type_or_ref: TypeOrSchemaRef::DataType(DataType::OneOf(OneOfType { one_of: l })),
                },
            ),
            Err(e) => Err(e),
        },
        SchemaDataType::AllOf(u) => match compile_members(&u.all_of, components, stack, depth) {
            Ok((l, s)) => Ok(
                DataTypeWithSchema {
                    schemas: s,
                    type_or_ref: TypeOrSchemaRef::DataType(DataType::AllOf(AllOfType { all_of: l })),
                },
            ),
            Err(e) => Err(e),
        },
        SchemaDataType::AnyOf(u) => match compile_members(&u.any_of, components, stack, depth) {
            Ok((l, s)) => Ok(
                DataTypeWithSchema {
                    schemas: s,
                    type_or_ref: TypeOrSchemaRef::DataType(DataType::AnyOf(AnyOfType { any_of: l })),
                },
            ),
            Err(e) => Err(e),
        },
        SchemaDataType::Empty(_) => Err(Error::NotImplemented(Unsupported::EmptyType)),
        SchemaDataType::UnknownType(_) => Err(Error::NotImplemented(Unsupported::UnknownType)),
    }
}

/// Compiles a concrete type.
pub fn compile_actual<'a>(
    at: &'a SchemaActualType,
    components: Option<&'a Components>,
    stack: &mut Stack<'a>,
    depth: u32,
) -> (r: Result<DataTypeWithSchema<'a>, Error<'a>>)
    requires
        old(stack).model().len() > 0,
        depth <= MAX_DEPTH,
    ensures
        final(stack).model() == old(stack).model(),
        outcome(r) == actual_spec(at, components, old(stack).model(), depth as int),
    decreases 1025 - depth, 3int, 0int,
{
    match &at.type_schema {
        MaybeNullableTypeSchema::Nullable(n) => match &n.schema {
            NullalbleTypeSchema::Null => Err(Error::NotImplemented(Unsupported::NullableNullType)),
            NullalbleTypeSchema::Boolean(b) => Ok(
                DataTypeWithSchema::actual_type(at, CompiledType::Nullable(NullableCompiledType::Boolean(b))),
            ),
            NullalbleTypeSchema::Integer(i) => Ok(
                DataTypeWithSchema::actual_type(at, CompiledType::Nullable(NullableCompiledType::Integer(i))),
            ),
            NullalbleTypeSchema::Number(x) => Ok(
                DataTypeWithSchema::actual_type(at, CompiledType::Nullable(NullableCompiledType::Number(x))),
            ),
            NullalbleTypeSchema::String(x) => Ok(
                DataTypeWithSchema::actual_type(at, CompiledType::Nullable(NullableCompiledType::String(x))),
            ),
            NullalbleTypeSchema::Object(o) => match compile_object(o, components, stack, depth) {
                Ok((obj, s)) => Ok(inline_actual(CompiledType::Nullable(NullableCompiledType::Object(obj)), s)),
                Err(e) => Err(e),
            },
            NullalbleTypeSchema::Array(a) => match compile_array(a, components, stack, depth) {
                Ok((arr, s)) => Ok(inline_actual(CompiledType::Nullable(NullableCompiledType::Array(arr)), s)),
                Err(e) => Err(e),
            },
        },
        MaybeNullableTypeSchema::Normal(t) => match t {
            TypeSchema::Null => Err(Error::NotImplemented(Unsupported::NullType)),
            TypeSchema::Array(_) => Err(Error::NotImplemented(Unsupported::ArrayType)),
            TypeSchema::Boolean(b) => Ok(
                DataTypeWithSchema::actual_type(at, CompiledType::Normal(NormalCompiledType::Boolean(b))),
            ),
            TypeSchema::Integer(i) => Ok(
                DataTypeWithSchema::actual_type(at, CompiledType::Normal(NormalCompiledType::Integer(i))),
            ),
            TypeSchema::Number(x) => Ok(
                DataTypeWithSchema::actual_type(at, CompiledType::Normal(NormalCompiledType::Number(x))),
            ),
            TypeSchema::String(x) => Ok(
                DataTypeWithSchema::actual_type(at, CompiledType::Normal(NormalCompiledType::String(x))),
            ),
        },
        MaybeNullableTypeSchema::Object(o) => match compile_object(o, components, stack, depth) {
            Ok((obj, s)) => Ok(inline_actual(CompiledType::Normal(NormalCompiledType::Object(obj)), s)),
            Err(e) => Err(e),
        },
        MaybeNullableTypeSchema::Array(a) => match compile_array(a, components, stack, depth) {
            Ok((arr, s)) => Ok(inline_actual(CompiledType::Normal(NormalCompiledType::Array(arr)), s)),
            Err(e) => Err(e),
        },
    }
}

/// Compiles the properties of an object, in order, in one child scope.
pub fn compile_object<'a>(
    sobj: &'a SchemaObject,
    components: Option<&'a Components>,
    stack: &mut Stack<'a>,
    depth: u32,
) -> (r: Result<(CompiledObject<'a>, Schemas<'a>), Error<'a>>)
    requires
        old(stack).model().len() > 0,
        depth <= MAX_DEPTH,
    ensures
        final(stack).model() == old(stack).model(),
        match r {
            Ok((o, s)) => object_spec(sobj, components, old(stack).model(), depth as int) == Ok::<_, Error<'a>>((props_model(o.properties@), s.model())),
            Err(e) => object_spec(sobj, components, old(stack).model(), depth as int) == Err::<(Seq<(Seq<char>, TypeRef<'a>)>, SchemasModel<'a>), _>(e),
        },
    decreases 1025 - depth, 2int, 0int,
{
    let ghost base = stack.model();
    let ps = match &sobj.properties {
        None => {
            let obj = CompiledObject { properties: Vec::new() };
            assert(props_model(obj.properties@) =~= Seq::<(Seq<char>, TypeRef<'a>)>::empty());
            return Ok((obj, Schemas::new()));
        },
        Some(ps) => ps,
    };
    stack.push();
    let mut out: Vec<(&'a PropertyName, TypeOrSchemaRef<'a>)> = Vec::new();
    let mut i: usize = 0;
    assert(props_model(out@) =~= Seq::<(Seq<char>, TypeRef<'a>)>::empty());
    assert(stack.model().drop_last() =~= base);
    while i < ps.len()
        invariant
            i <= ps@.len(),
            sobj.properties == Some(*ps),
            object_spec(sobj, components, base, depth as int) == props_spec(ps, 0, no_schemas(), components, base, depth as int),
            depth <= MAX_DEPTH,
            base.len() > 0,
            base == old(stack).model(),
            stack.model().len() == base.len() + 1,
            stack.model().drop_last() == base,
            stack.model().last().0 == None::<Seq<char>>,
            props_spec(ps, 0, no_schemas(), components, base, depth as int) == prepend_props(
                props_model(out@),
                props_spec(ps, i as int, stack.model().last().1, components, base, depth as int),
            ),
        decreases ps@.len() - i,
    {
        let ghost acc = stack.model().last().1;
        let ghost before = out@;
        assert(stack.model() =~= child(base, None, acc));
        let r = compile(&ps[i].1, components, stack, depth + 1);
        match r {
            Err(e) => {
                let _ = stack.pop();
                let err = Error::PropertyCompilation(&ps[i].0, Box::new(e));
                assert(compile_spec(&ps@[i as int].1, components, child(base, None, acc), depth + 1) == Err::<(TypeRef<'a>, SchemasModel<'a>), _>(e));
                assert(props_spec(ps, i as int, acc, components, base, depth as int) == Err::<(Seq<(Seq<char>, TypeRef<'a>)>, SchemasModel<'a>), _>(err));
                return Err(err);
            },
            Ok(d) => {
                let ghost t = d.type_or_ref.model();
                let ghost sm = d.schemas.model();
                stack.merge(d.schemas);
                out.push((&ps[i].0, d.type_or_ref));
                proof {
                    lemma_props_model_push(before, (&ps@[i as int].0, d.type_or_ref));
                    let next = props_spec(ps, i + 1, merge_model(acc, sm), components, base, depth as int);
                    match next {
                        Ok((l, a)) => {
                            assert(props_model(before) + (seq![(ps@[i as int].0@, t)] + l) =~= props_model(before).push((ps@[i as int].0@, t)) + l);
                        },
                        Err(_) => {},
                    }
                    assert(stack.model().drop_last() =~= base);
                }
            },
        }
        i = i + 1;
    }
    let s = stack.pop();
    assert(props_model(out@) + Seq::<(Seq<char>, TypeRef<'a>)>::empty() =~= props_model(out@));
    Ok((CompiledObject { properties: out }, s))
}

/// Compiles the members of a combinator, in order, in one shared child scope.
pub fn compile_members<'a>(
    ms: &'a Vec<SchemaDataType>,
    components: Option<&'a Components>,
    stack: &mut Stack<'a>,
    depth: u32,
) -> (r: Result<(Vec<TypeOrSchemaRef<'a>>, Schemas<'a>), Error<'a>>)
    requires
        old(stack).model().len() > 0,
        depth <= MAX_DEPTH,
    ensures
        final(stack).model() == old(stack).model(),
        match r {
            Ok((l, s)) => members_spec(ms, 0, no_schemas(), components, old(stack).model(), depth as int) == Ok::<_, Error<'a>>((refs_model(l@), s.model())),
            Err(e) => members_spec(ms, 0, no_schemas(), components, old(stack).model(), depth as int) == Err::<(Seq<TypeRef<'a>>, SchemasModel<'a>), _>(e),
        },
    decreases 1025 - depth, 1int, 0int,
{
    let ghost base = stack.model();
    stack.push();
    let mut out: Vec<TypeOrSchemaRef<'a>> = Vec::new();
    let mut i: usize = 0;
    assert(refs_model(out@) =~= Seq::<TypeRef<'a>>::empty());
    assert(stack.model().drop_last() =~= base);
    while i < ms.len()
        invariant
            i <= ms@.len(),
            depth <= MAX_DEPTH,
            base.len() > 0,
            base == old(stack).model(),
            stack.model().len() == base.len() + 1,
            stack.model().drop_last() == base,
            stack.model().last().0 == None::<Seq<char>>,
            members_spec(ms, 0, no_schemas(), components, base, depth as int) == prepend_refs(
                refs_model(out@),
                members_spec(ms, i as int, stack.model().last().1, components, base, depth as int),
            ),
        decreases ms@.len() - i,
    {
        let ghost acc = stack.model().last().1;
        let ghost before = out@;
        assert(stack.model() =~= child(base, None, acc));
        let r = compile(&ms[i], components, stack, depth + 1);
        match r {
            Err(e) => {
                let _ = stack.pop();
                return Err(e);
            },
            Ok(d) => {
                let ghost t = d.type_or_ref.model();
                let ghost sm = d.schemas.model();
                stack.merge(d.schemas);
                out.push(d.type_or_ref);
                proof {
                    lemma_refs_model_push(before, d.type_or_ref);
                    let next = members_spec(ms, i + 1, merge_model(acc, sm), components, base, depth as int);
                    match next {
                        Ok((l, a)) => {
                            assert(refs_model(before) + (seq![t] + l) =~= refs_model(before).push(t) + l);
                        },
                        Err(_) => {},
                    }
                    assert(stack.model().drop_last() =~= base);
                }
            },
        }
        i = i + 1;
    }
    let s = stack.pop();
    assert(refs_model(out@) + Seq::<TypeRef<'a>>::empty() =~= refs_model(out@));
    Ok((out, s))
}

/// Compiles the item type of an array in a child scope.
pub fn compile_array<'a>(
    sarr: &'a SchemaArray,
    components: Option<&'a Components>,
    stack: &mut Stack<'a>,
    depth: u32,
) -> (r: Result<(CompiledArray<'a>, Schemas<'a>), Error<'a>>)
    requires
        old(stack).model().len() > 0,
        depth <= MAX_DEPTH,
    ensures
        final(stack).model() == old(stack).model(),
        match r {
            Ok((a, s)) => array_spec(sarr, components, old(stack).model(), depth as int) == Ok::<_, Error<'a>>((a.items.model(), s.model())),
            Err(e) => array_spec(sarr, components, old(stack).model(), depth as int) == Err::<(TypeRef<'a>, SchemasModel<'a>), _>(e),
        },
    decreases 1025 - depth, 2int, 0int,
{
    let ghost base = stack.model();
    let items = match &sarr.items {
        None => return Err(Error::NoItemsInArray),
        Some(it) => it,
    };
    stack.push();
    let r = compile(&**items, components, stack, depth + 1);
    let mut s = stack.pop();
    assert(stack.model() =~= base);
    match r {
        Err(e) => Err(Error::ArrayItemCompilation(Box::new(e))),
        Ok(d) => {
            s.merge(d.schemas);
            Ok((CompiledArray { items: Box::new(d.type_or_ref) }, s))
        },
    }
}

/// The object definition a property reference may point into.
fn object_of<'a>(sdt: &'a SchemaDataType) -> (r: Option<&'a SchemaObject>)
    ensures
        r == referenced_object(sdt),
{
    match sdt {
        SchemaDataType::ActualType(at) => match &at.type_schema {
            MaybeNullableTypeSchema::Nullable(n) => match &n.schema {
                NullalbleTypeSchema::Object(o) => Some(o),
                _ => None,
            },
            MaybeNullableTypeSchema::Object(o) => Some(o),
            _ => None,
        },
        _ => None,
    }
}

/// Compiles a reference.
pub fn compile_ref<'a>(
    r: &'a Reference,
    components: Option<&'a Components>,
    stack: &mut Stack<'a>,
    depth: u32,
) -> (res: Result<DataTypeWithSchema<'a>, Error<'a>>)
    requires
        old(stack).model().len() > 0,
        depth <= MAX_DEPTH,
    ensures
        final(stack).model() == old(stack).model(),
        outcome(res) == ref_spec(r, components, old(stack).model(), depth as int),
    decreases 1025 - depth, 3int, 0int,
{
    let ghost base = stack.model();
    let key = match r.sref.schemas_sref() {
        Ok(Some(k)) => k,
        Ok(None) => return Err(Error::UnexpectedReferenceType(&r.sref)),
        Err(_) => return Err(Error::ReferenceParseError(&r.sref)),
    };
    match key {
        SRefSchemas::Normal(name) => {
            match stack.lookup(name.as_str()) {
                Some(n) => {
                    return Ok(DataTypeWithSchema { schemas: Schemas::new(), type_or_ref: TypeOrSchemaRef::Reference(n) });
                },
                None => {},
            }
            let c = match components {
                Some(c) => c,
                None => return Err(Error::SchemasNotDefinedButReferenced),
            };
            let e = match c.find_schema(name.as_str()) {
                Some(e) => e,
                None => return Err(Error::SchemaReferenceNotFound(&r.sref)),
            };
            proof {
                lemma_key_index_bounds(c.schemas.unwrap()@, name@, 0);
            }
            stack.push_ref(&e.0);
            let res = compile(&e.1, components, stack, depth + 1);
            let _ = stack.pop();
            assert(stack.model() =~= base);
            match res {
                Err(err) => Err(Error::SchemaCompilation(&e.0, Box::new(err))),
                Ok(d) => match d.type_or_ref {
                    TypeOrSchemaRef::DataType(t) => {
                        let mut s = d.schemas;
                        s.insert(&e.0, t);
                        Ok(DataTypeWithSchema { schemas: s, type_or_ref: TypeOrSchemaRef::Reference(&e.0) })
                    },
                    TypeOrSchemaRef::Reference(n) => Ok(DataTypeWithSchema { schemas: d.schemas, type_or_ref: TypeOrSchemaRef::Reference(n) }),
                },
            }
        },
        SRefSchemas::ObjProperty((name, pname)) => {
            let c = match components {
                Some(c) => c,
                None => return Err(Error::SchemasNotDefinedButReferenced),
            };
            let e = match c.find_schema(name.as_str()) {
                Some(e) => e,
                None => return Err(Error::SchemaReferenceNotFound(&r.sref)),
            };
            proof {
                lemma_key_index_bounds(c.schemas.unwrap()@, name@, 0);
            }
            let o = match object_of(&e.1) {
                Some(o) => o,
                None => return Err(Error::ReferenceToIncompatibleObject(&r.sref)),
            };
            let ps = match &o.properties {
                Some(ps) => ps,
                None => return Err(Error::PropertiesNotFoundInReferencedObject(&e.0)),
            };
            let p = match find_entry(ps, pname.as_str()) {
                Some(p) => p,
                None => return Err(Error::PropertyNotFoundInReferencedObject(&e.0, &r.sref)),
            };
            stack.push_ref(&e.0);
            let res = compile(&p.1, components, stack, depth + 1);
            let _ = stack.pop();
            assert(stack.model() =~= base);
            res
        },
    }
}

} // verus!
