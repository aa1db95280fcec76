//! Type definitions as written in the document.
use crate::schema::reference::Reference;
use crate::schema::PropertyName;
use crate::typing::AlwaysTrue;
use crate::typing::TaggedString;
use vstd::prelude::*;

verus! {

/// One type definition: a reference, a concrete type or a combinator.
#[derive(Debug)]
pub enum DataType {
    Reference(Reference),
    ActualType(Box<ActualType>),
    OneOf(OneOfType),
    AllOf(AllOfType),
    AnyOf(AnyOfType),
    Empty(EmptyType),
    UnknownType(UnknownType),
}

#[derive(Debug)]
pub struct ActualType {
    pub type_schema: MaybeNullableTypeSchema,
    pub readonly: bool,
    pub writeonly: bool,
}

#[derive(Debug)]
pub enum MaybeNullableTypeSchema {
    Nullable(NullableTypeSchema),
    Normal(TypeSchema),
    /// An object written without the `type` keyword.
    Object(Object),
    /// An array written without the `type` keyword.
    Array(Array),
}

#[derive(Debug)]
pub struct NullableTypeSchema {
    pub nullable: AlwaysTrue,
    pub schema: NullalbleTypeSchema,
}

#[derive(Debug)]
pub enum TypeSchema {
    Null,
    Boolean(BooleanType<NonNullableDefault<bool>>),
    Integer(IntegerType),
    Number(NumberType),
    String(StringType<NonNullableDefault<String>>),
    /// `type: array` without `nullable`: not compiled.
    Array(Array),
}

#[derive(Debug)]
pub enum NullalbleTypeSchema {
    Null,
    Boolean(BooleanType<NullableDefault<bool>>),
    Object(Object),
    Array(Array),
    Integer(NullableIntegerType),
    Number(NullableNumberType),
    String(StringType<NullableDefault<String>>),
}

#[derive(Debug)]
pub struct StringType<D> {
    pub min_length: Option<u64>,
    pub max_length: Option<u64>,
    pub default: D,
}

#[derive(Debug)]
pub struct BooleanType<D> {
    pub default: D,
}

#[derive(Debug)]
pub struct OneOfType {
    pub one_of: Vec<DataType>,
}

#[derive(Debug)]
pub struct AllOfType {
    pub all_of: Vec<DataType>,
}

#[derive(Debug)]
pub struct AnyOfType {
    pub any_of: Vec<DataType>,
}

/// A definition with no keys at all.
#[derive(Debug)]
pub struct EmptyType {}

/// A definition whose keys match no known shape.
#[derive(Debug)]
pub struct UnknownType {}

/// Default of a non-nullable value: absent or a value.
#[derive(Debug)]
pub struct NonNullableDefault<T> {
    pub value: Option<T>,
}

/// Default of a nullable value: absent (`None`), null (`Some(None)`) or a
/// value (`Some(Some(v))`).
#[derive(Debug)]
pub struct NullableDefault<T> {
    pub value: Option<Option<T>>,
}

/// Bounds and default of a numeric type.  Numbers of type `number` are held
/// by their IEEE-754 bit patterns (`u32` for `float`, `u64` for `double`).
#[derive(Debug)]
pub struct Numerical<T, DefaultV> {
    pub minimum: Option<T>,
    pub exclisive_minimum: bool,
    pub maximum: Option<T>,
    pub exclisive_maximum: bool,
    pub default_info: DefaultV,
}

pub type Integer32 = Numerical<i32, NonNullableDefault<i32>>;

pub type Integer64 = Numerical<i64, NonNullableDefault<i64>>;

pub type NullableInteger32 = Numerical<i32, NullableDefault<i32>>;

pub type NullableInteger64 = Numerical<i64, NullableDefault<i64>>;

pub type Float = Numerical<u32, NonNullableDefault<u32>>;

pub type Double = Numerical<u64, NonNullableDefault<u64>>;

pub type NullableFloat = Numerical<u32, NullableDefault<u32>>;

pub type NullableDouble = Numerical<u64, NullableDefault<u64>>;

#[derive(Debug)]
pub enum IntegerType {
    WithFormat(IntegerWithFormat),
    WithOutFormat(Integer32),
}

#[derive(Debug)]
pub enum NullableIntegerType {
    WithFormat(NullableIntegerWithFormat),
    WithOutFormat(NullableInteger32),
}

#[derive(Debug)]
pub enum IntegerWithFormat {
    Int32(Integer32),
    Int64(Integer64),
}

#[derive(Debug)]
pub enum NullableIntegerWithFormat {
    Int32(NullableInteger32),
    Int64(NullableInteger64),
}

#[derive(Debug)]
pub enum NumberType {
    WithFormat(NumberWithFormat),
    WithOutFormat(Float),
}

#[derive(Debug)]
pub enum NullableNumberType {
    WithFormat(NullableNumberWithFormat),
    WithOutFormat(NullableFloat),
}

#[derive(Debug)]
pub enum NumberWithFormat {
    Float(Float),
    Double(Double),
}

#[derive(Debug)]
pub enum NullableNumberWithFormat {
    Float(NullableFloat),
    Double(NullableDouble),
}

/// An object type: its properties in declaration order, names unique.
#[derive(Debug)]
pub struct Object {
    pub properties: Option<Vec<(PropertyName, DataType)>>,
}

/// An array type.
#[derive(Debug)]
pub struct Array {
    pub items: Option<Box<DataType>>,
}

#[derive(Debug)]
pub enum Ecma262RegExTag {
    Marker,
}

pub type Ecma262RegEx = TaggedString<Ecma262RegExTag>;

} // verus!
