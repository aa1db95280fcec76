//! Compiled types, and the mathematical model each of them stands for.
use crate::schema::data_type::{
    BooleanType, IntegerType, NonNullableDefault, NullableDefault, NullableIntegerType,
    NullableNumberType, NumberType, StringType,
};
use crate::schema::sref::SRefSchemasObjectName;
use crate::schema::PropertyName;
use vstd::prelude::*;

verus! {

broadcast use vstd::std_specs::vec::group_vec_axioms, vstd::seq::group_seq_axioms;

/// A compiled type: a concrete type or a combinator of member types.
#[derive(Debug)]
pub enum DataType<'a> {
    ActualType(ActualType<'a>),
    OneOf(OneOfType<'a>),
    AllOf(AllOfType<'a>),
    AnyOf(AnyOfType<'a>),
}

/// A compiled type written in place, or a reference to a named one.
#[derive(Debug)]
pub enum TypeOrSchemaRef<'a> {
    DataType(DataType<'a>),
    Reference(&'a SRefSchemasObjectName),
}

#[derive(Debug)]
pub struct OneOfType<'a> {
    pub one_of: Vec<TypeOrSchemaRef<'a>>,
}

#[derive(Debug)]
pub struct AllOfType<'a> {
    pub all_of: Vec<TypeOrSchemaRef<'a>>,
}

#[derive(Debug)]
pub struct AnyOfType<'a> {
    pub any_of: Vec<TypeOrSchemaRef<'a>>,
}

#[derive(Debug)]
pub struct ActualType<'a> {
    pub compiled_type: CompiledType<'a>,
    pub readonly: bool,
    pub writeonly: bool,
}

#[derive(Debug)]
pub enum CompiledType<'a> {
    Nullable(NullableCompiledType<'a>),
    Normal(NormalCompiledType<'a>),
}

#[derive(Debug)]
pub enum NullableCompiledType<'a> {
    Null,
    Boolean(&'a BooleanType<NullableDefault<bool>>),
    Object(CompiledObject<'a>),
    Array(CompiledArray<'a>),
    Integer(&'a NullableIntegerType),
    Number(&'a NullableNumberType),
    String(&'a StringType<NullableDefault<String>>),
}

#[derive(Debug)]
pub enum NormalCompiledType<'a> {
    Boolean(&'a BooleanType<NonNullableDefault<bool>>),
    Object(CompiledObject<'a>),
    Array(CompiledArray<'a>),
    Integer(&'a IntegerType),
    Number(&'a NumberType),
    String(&'a StringType<NonNullableDefault<String>>),
}

/// An object: its properties in declaration order.
#[derive(Debug)]
pub struct CompiledObject<'a> {
    pub properties: Vec<(&'a PropertyName, TypeOrSchemaRef<'a>)>,
}

#[derive(Debug)]
pub struct CompiledArray<'a> {
    pub items: Box<TypeOrSchemaRef<'a>>,
}

/// Model of `TypeOrSchemaRef`: names are their text.
pub enum TypeRef<'a> {
    Inline(Type<'a>),
    Named(Seq<char>),
}

/// Model of a compiled `DataType`.
pub enum Type<'a> {
    /// The shape, then the read-only and write-only flags.
    Actual(Shape<'a>, bool, bool),
    OneOf(Seq<TypeRef<'a>>),
    AllOf(Seq<TypeRef<'a>>),
    AnyOf(Seq<TypeRef<'a>>),
}

pub enum Shape<'a> {
    Nullable(NullableShape<'a>),
    Normal(NormalShape<'a>),
}

pub enum NullableShape<'a> {
    Null,
    Boolean(&'a BooleanType<NullableDefault<bool>>),
    Object(Seq<(Seq<char>, TypeRef<'a>)>),
    Array(Box<TypeRef<'a>>),
    Integer(&'a NullableIntegerType),
    Number(&'a NullableNumberType),
    String(&'a StringType<NullableDefault<String>>),
}

pub enum NormalShape<'a> {
    Boolean(&'a BooleanType<NonNullableDefault<bool>>),
    Object(Seq<(Seq<char>, TypeRef<'a>)>),
    Array(Box<TypeRef<'a>>),
    Integer(&'a IntegerType),
    Number(&'a NumberType),
    String(&'a StringType<NonNullableDefault<String>>),
}

impl<'a> TypeOrSchemaRef<'a> {
    pub open spec fn model(&self) -> TypeRef<'a>
        decreases self,
    {
        match self {
            TypeOrSchemaRef::DataType(d) => TypeRef::Inline(d.model()),
            TypeOrSchemaRef::Reference(n) => TypeRef::Named(n@),
        }
    }
}

impl<'a> DataType<'a> {
    pub open spec fn model(&self) -> Type<'a>
        decreases self,
    {
        match self {
            DataType::ActualType(a) => Type::Actual(
                match &a.compiled_type {
                    CompiledType::Nullable(n) => Shape::Nullable(
                        match n {
                            NullableCompiledType::Null => NullableShape::Null,
                            NullableCompiledType::Boolean(b) => NullableShape::Boolean(b),
                            NullableCompiledType::Object(o) => NullableShape::Object(
                                props_model(o.properties@),
                            ),
                            NullableCompiledType::Array(x) => NullableShape::Array(
                                Box::new(x.items.model()),
                            ),
                            NullableCompiledType::Integer(i) => NullableShape::Integer(i),
                            NullableCompiledType::Number(i) => NullableShape::Number(i),
                            NullableCompiledType::String(s) => NullableShape::String(s),
                        },
                    ),
                    CompiledType::Normal(n) => Shape::Normal(
                        match n {
                            NormalCompiledType::Boolean(b) => NormalShape::Boolean(b),
                            NormalCompiledType::Object(o) => NormalShape::Object(
                                props_model(o.properties@),
                            ),
                            NormalCompiledType::Array(x) => NormalShape::Array(
                                Box::new(x.items.model()),
                            ),
                            NormalCompiledType::Integer(i) => NormalShape::Integer(i),
                            NormalCompiledType::Number(i) => NormalShape::Number(i),
                            NormalCompiledType::String(s) => NormalShape::String(s),
                        },
                    ),
                },
                a.readonly,
                a.writeonly,
            ),
            DataType::OneOf(u) => Type::OneOf(refs_model(u.one_of@)),
            DataType::AllOf(u) => Type::AllOf(refs_model(u.all_of@)),
            DataType::AnyOf(u) => Type::AnyOf(refs_model(u.any_of@)),
        }
    }
}

/// Model of a property list.
pub open spec fn props_model<'a>(ps: Seq<(&'a PropertyName, TypeOrSchemaRef<'a>)>) -> Seq<(Seq<char>, TypeRef<'a>)>
    decreases ps,
{
    if ps.len() == 0 {
        Seq::empty()
    } else {
        props_model(ps.subrange(0, ps.len() - 1)).push((ps[ps.len() - 1].0@, ps[ps.len() - 1].1.model()))
    }
}

/// Model of a member list.
pub open spec fn refs_model<'a>(rs: Seq<TypeOrSchemaRef<'a>>) -> Seq<TypeRef<'a>>
    decreases rs,
{
    if rs.len() == 0 {
        Seq::empty()
    } else {
        refs_model(rs.subrange(0, rs.len() - 1)).push(rs[rs.len() - 1].model())
    }
}

/// Pushing onto a property list pushes its model.
pub proof fn lemma_props_model_push<'a>(ps: Seq<(&'a PropertyName, TypeOrSchemaRef<'a>)>, p: (&'a PropertyName, TypeOrSchemaRef<'a>))
    ensures
        props_model(ps.push(p)) == props_model(ps).push((p.0@, p.1.model())),
{
    assert(ps.push(p).subrange(0, ps.len() as int) =~= ps);
}

pub proof fn lemma_refs_model_push<'a>(rs: Seq<TypeOrSchemaRef<'a>>, r: TypeOrSchemaRef<'a>)
    ensures
        refs_model(rs.push(r)) == refs_model(rs).push(r.model()),
{
    assert(rs.push(r).subrange(0, rs.len() as int) =~= rs);
}

} // verus!
