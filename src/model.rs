//! Models: the flattened shapes that code generation works from, built from
//! compiled object schemas whose properties are scalars.
use crate::compile::data_type::{
    ActualType, CompiledType, DataType, NormalCompiledType, TypeOrSchemaRef,
};
use crate::compile::Compiled;
use crate::schema::data_type::{
    BooleanType, IntegerType, NonNullableDefault, NullableDefault, NullableIntegerType,
    NullableNumberType, NumberType, StringType,
};
use crate::schema::path::Path;
use crate::schema::sref::SRefSchemasObjectName;
use crate::schema::PropertyName;
use vstd::prelude::*;

verus! {

/// The name of a model.
#[derive(Debug)]
pub enum Name<'a> {
    Schemas(&'a SRefSchemasObjectName),
    Property(&'a PropertyName, Box<Name<'a>>),
    RequestBody(&'a Path),
}

#[derive(Debug)]
pub enum Model<'a> {
    Object(Object<'a>),
    Enum(Enum<'a>),
}

#[derive(Debug)]
pub struct Object<'a> {
    pub properties: Vec<(&'a PropertyName, PropertyType<'a>)>,
}

#[derive(Debug)]
pub struct Enum<'a> {
    pub members: Vec<Name<'a>>,
}

#[derive(Debug)]
pub struct PropertyType<'a> {
    pub simple_type: SimpleType<'a>,
    pub readonly: bool,
    pub writeonly: bool,
}

#[derive(Debug)]
pub enum SimpleType<'a> {
    Nullable(NullableType<'a>),
    Normal(NormalType<'a>),
}

#[derive(Debug)]
pub enum NullableType<'a> {
    Null,
    Boolean(&'a BooleanType<NullableDefault<bool>>),
    Integer(&'a NullableIntegerType),
    Number(&'a NullableNumberType),
    String(&'a StringType<NullableDefault<String>>),
    Object(Name<'a>),
    Array(Name<'a>),
}

#[derive(Debug)]
pub enum NormalType<'a> {
    Boolean(&'a BooleanType<NonNullableDefault<bool>>),
    Integer(&'a IntegerType),
    Number(&'a NumberType),
    String(&'a StringType<NonNullableDefault<String>>),
    Object(Name<'a>),
    Array(Name<'a>),
}

/// The scalar type of a property written in place, if it is one.
pub open spec fn scalar_property<'a>(t: &'a TypeOrSchemaRef<'a>) -> Option<PropertyType<'a>> {
    match t {
        TypeOrSchemaRef::DataType(DataType::ActualType(a)) => match &a.compiled_type {
            CompiledType::Normal(NormalCompiledType::Boolean(v)) => Some(
                PropertyType { simple_type: SimpleType::Normal(NormalType::Boolean(v)), readonly: a.readonly, writeonly: a.writeonly },
            ),
            CompiledType::Normal(NormalCompiledType::Integer(v)) => Some(
                PropertyType { simple_type: SimpleType::Normal(NormalType::Integer(v)), readonly: a.readonly, writeonly: a.writeonly },
            ),
            CompiledType::Normal(NormalCompiledType::Number(v)) => Some(
                PropertyType { simple_type: SimpleType::Normal(NormalType::Number(v)), readonly: a.readonly, writeonly: a.writeonly },
            ),
            CompiledType::Normal(NormalCompiledType::String(v)) => Some(
                PropertyType { simple_type: SimpleType::Normal(NormalType::String(v)), readonly: a.readonly, writeonly: a.writeonly },
            ),
            _ => None,
        },
        _ => None,
    }
}

/// The properties of a normal object schema, if it is one.
pub open spec fn object_properties<'a>(t: &'a DataType<'a>) -> Option<&'a Vec<(&'a PropertyName, TypeOrSchemaRef<'a>)>> {
    match t {
        DataType::ActualType(a) => match &a.compiled_type {
            CompiledType::Normal(NormalCompiledType::Object(o)) => Some(&o.properties),
            _ => None,
        },
        _ => None,
    }
}

/// A schema models can be built from: a normal object whose properties are
/// all scalars written in place.
pub open spec fn buildable<'a>(t: &'a DataType<'a>) -> bool {
    object_properties(t) matches Some(ps) && forall|j: int| 0 <= j < ps@.len() ==> (#[trigger] scalar_property(&ps@[j].1)) is Some
}

/// The model of an object schema named `name` with properties `ps`.
pub open spec fn object_model<'a>(
    ps: &'a Vec<(&'a PropertyName, TypeOrSchemaRef<'a>)>,
    o: &Object<'a>,
) -> bool {
    o.properties@.len() == ps@.len() && forall|j: int|
        0 <= j < ps@.len() ==> #[trigger] o.properties@[j].0 == ps@[j].0 && Some(o.properties@[j].1) == scalar_property(&ps@[j].1)
}

fn build_npt<'a>(t: &'a ActualType<'a>, nt: NormalType<'a>) -> (r: PropertyType<'a>)
    ensures
        r == (PropertyType { simple_type: SimpleType::Normal(nt), readonly: t.readonly, writeonly: t.writeonly }),
{
    PropertyType { simple_type: SimpleType::Normal(nt), readonly: t.readonly, writeonly: t.writeonly }
}

fn build_property<'a>(t: &'a TypeOrSchemaRef<'a>) -> (r: Option<PropertyType<'a>>)
    ensures
        r == scalar_property(t),
{
    match t {
        TypeOrSchemaRef::DataType(DataType::ActualType(a)) => match &a.compiled_type {
            CompiledType::Normal(NormalCompiledType::Boolean(v)) => Some(build_npt(a, NormalType::Boolean(v))),
            CompiledType::Normal(NormalCompiledType::Integer(v)) => Some(build_npt(a, NormalType::Integer(v))),
            CompiledType::Normal(NormalCompiledType::Number(v)) => Some(build_npt(a, NormalType::Number(v))),
            CompiledType::Normal(NormalCompiledType::String(v)) => Some(build_npt(a, NormalType::String(v))),
            _ => None,
        },
        _ => None,
    }
}

/// The model of an object schema, named `name`.
pub fn build_object<'a>(name: Name<'a>, obj: &'a Vec<(&'a PropertyName, TypeOrSchemaRef<'a>)>) -> (r: Vec<(Name<'a>, Model<'a>)>)
    requires
        forall|j: int| 0 <= j < obj@.len() ==> (#[trigger] scalar_property(&obj@[j].1)) is Some,
    ensures
        r@.len() == 1,
        r@[0].0 == name,
        r@[0].1 matches Model::Object(o) && object_model(obj, &o),
{
    let mut properties: Vec<(&'a PropertyName, PropertyType<'a>)> = Vec::new();
    let mut j: usize = 0;
    while j < obj.len()
        invariant
            j <= obj@.len(),
            forall|k: int| 0 <= k < obj@.len() ==> (#[trigger] scalar_property(&obj@[k].1)) is Some,
            properties@.len() == j,
            forall|k: int|
                0 <= k < j ==> #[trigger] properties@[k].0 == obj@[k].0 && Some(properties@[k].1) == scalar_property(&obj@[k].1),
        decreases obj@.len() - j,
    {
        let p = &obj[j];
        let t = build_property(&p.1).unwrap();
        properties.push((p.0, t));
        j = j + 1;
    }
    let mut r: Vec<(Name<'a>, Model<'a>)> = Vec::new();
    r.push((name, Model::Object(Object { properties })));
    r
}

/// The models of all compiled schemas, in order, one per schema.
pub fn build<'a>(compiled: &'a Compiled<'a>) -> (r: Vec<(Name<'a>, Model<'a>)>)
    requires
        forall|i: int| 0 <= i < compiled.schemas.entries@.len() ==> buildable(#[trigger] &compiled.schemas.entries@[i].1),
    ensures
        r@.len() == compiled.schemas.entries@.len(),
        forall|i: int| 0 <= i < r@.len() ==> #[trigger] r@[i].0 == Name::Schemas(compiled.schemas.entries@[i].0)
            && (r@[i].1 matches Model::Object(o) && object_model(object_properties(&compiled.schemas.entries@[i].1)->Some_0, &o)),
{
    let entries = &compiled.schemas.entries;
    let mut r: Vec<(Name<'a>, Model<'a>)> = Vec::new();
    let mut i: usize = 0;
    while i < entries.len()
        invariant
            i <= entries@.len(),
            entries == &compiled.schemas.entries,
            forall|k: int| 0 <= k < entries@.len() ==> buildable(#[trigger] &entries@[k].1),
            r@.len() == i,
            forall|k: int| 0 <= k < i ==> #[trigger] r@[k].0 == Name::Schemas(entries@[k].0)
                && (r@[k].1 matches Model::Object(o) && object_model(object_properties(&entries@[k].1)->Some_0, &o)),
        decreases entries@.len() - i,
    {
        let e = &entries[i];
        assert(buildable(&entries@[i as int].1));
        let props = match &e.1 {
            DataType::ActualType(a) => match &a.compiled_type {
                CompiledType::Normal(NormalCompiledType::Object(o)) => &o.properties,
                _ => {
                    proof {
                        assert(object_properties(&e.1) is None);
                    }
                    return r;
                },
            },
            _ => {
                proof {
                    assert(object_properties(&e.1) is None);
                }
                return r;
            },
        };
        let mut one = build_object(Name::Schemas(e.0), props);
        let m = one.pop().unwrap();
        r.push(m);
        i = i + 1;
    }
    r
}

/// Whether `t` is a schema models can be built from.
pub fn is_buildable<'a>(t: &'a DataType<'a>) -> (r: bool)
    ensures
        r == buildable(t),
{
    let ps = match t {
        DataType::ActualType(a) => match &a.compiled_type {
            CompiledType::Normal(NormalCompiledType::Object(o)) => &o.properties,
            _ => return false,
        },
        _ => return false,
    };
    let mut j: usize = 0;
    while j < ps.len()
        invariant
            j <= ps@.len(),
            object_properties(t) == Some(ps),
            forall|k: int| 0 <= k < j ==> (#[trigger] scalar_property(&ps@[k].1)) is Some,
        decreases ps@.len() - j,
    {
        if build_property(&ps[j].1).is_none() {
            return false;
        }
        j = j + 1;
    }
    true
}

/// Whether models can be built from every compiled schema.
pub fn can_build<'a>(compiled: &'a Compiled<'a>) -> (r: bool)
    ensures
        r == forall|i: int| 0 <= i < compiled.schemas.entries@.len() ==> buildable(#[trigger] &compiled.schemas.entries@[i].1),
{
    let entries = &compiled.schemas.entries;
    let mut i: usize = 0;
    while i < entries.len()
        invariant
            i <= entries@.len(),
            entries == &compiled.schemas.entries,
            forall|k: int| 0 <= k < i ==> buildable(#[trigger] &entries@[k].1),
        decreases entries@.len() - i,
    {
        if !is_buildable(&entries[i].1) {
            return false;
        }
        i = i + 1;
    }
    true
}

} // verus!
