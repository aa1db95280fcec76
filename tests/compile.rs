use openapirs::compile::compile;
use openapirs::model::{build, can_build, Model, NormalType, SimpleType};
use openapirs::compile::data_type::{
    CompiledType, DataType, NormalCompiledType, NullableCompiledType, TypeOrSchemaRef,
};
use openapirs::compile::request_body::RequestBodyOrReference;
use openapirs::compile::schema_compiler::{compile as compile_schema, Error, Unsupported};
use openapirs::compile::stack::Stack;
use openapirs::schema::components::Components;
use openapirs::schema::data_type::{
    ActualType, AllOfType, Array, BooleanType, DataType as SchemaDataType, EmptyType,
    MaybeNullableTypeSchema, NonNullableDefault, NullableDefault, NullableTypeSchema,
    NullalbleTypeSchema, Object, OneOfType, StringType, TypeSchema,
};
use openapirs::schema::info::Info;
use openapirs::schema::media_type::MediaType;
use openapirs::schema::operation::Operation;
use openapirs::schema::path::Path;
use openapirs::schema::path_item::PathItem;
use openapirs::schema::reference::Reference;
use openapirs::schema::request_body::{RequestBody, RequestBodyOrReference as SchemaBodyOrRef};
use openapirs::schema::sref::SRef;
use openapirs::schema::version::Version;
use openapirs::schema::Description;
use openapirs::typing::{AlwaysTrue, TaggedString};

fn actual(type_schema: MaybeNullableTypeSchema) -> SchemaDataType {
    SchemaDataType::ActualType(Box::new(ActualType { type_schema, readonly: false, writeonly: false }))
}

fn string() -> SchemaDataType {
    actual(MaybeNullableTypeSchema::Normal(TypeSchema::String(StringType {
        min_length: None,
        max_length: None,
        default: NonNullableDefault { value: None },
    })))
}

fn nullable_string() -> SchemaDataType {
    actual(MaybeNullableTypeSchema::Nullable(NullableTypeSchema {
        nullable: AlwaysTrue::from_bool(true).unwrap(),
        schema: NullalbleTypeSchema::String(StringType {
            min_length: None,
            max_length: None,
            default: NullableDefault { value: Some(None) },
        }),
    }))
}

fn boolean() -> SchemaDataType {
    actual(MaybeNullableTypeSchema::Normal(TypeSchema::Boolean(BooleanType {
        default: NonNullableDefault { value: Some(true) },
    })))
}

fn reference(ptr: &str) -> SchemaDataType {
    SchemaDataType::Reference(Reference { sref: SRef::from_str(ptr).unwrap() })
}

fn schema_ref(name: &str) -> SchemaDataType {
    reference(&format!("#/components/schemas/{name}"))
}

fn object(props: Vec<(&str, SchemaDataType)>) -> SchemaDataType {
    actual(MaybeNullableTypeSchema::Object(Object {
        properties: Some(
            props.into_iter().map(|(n, t)| (TaggedString::new(n.to_string()), t)).collect(),
        ),
    }))
}

fn array(items: SchemaDataType) -> SchemaDataType {
    actual(MaybeNullableTypeSchema::Array(Array { items: Some(Box::new(items)) }))
}

fn components(schemas: Vec<(&str, SchemaDataType)>) -> Components {
    Components {
        schemas: Some(schemas.into_iter().map(|(n, t)| (TaggedString::new(n.to_string()), t)).collect()),
        responses: None,
        parameters: None,
        request_bodies: None,
    }
}

fn ref_name<'a>(t: &TypeOrSchemaRef<'a>) -> String {
    match t {
        TypeOrSchemaRef::Reference(n) => n.as_str().to_string(),
        other => panic!("not a reference: {:?}", other),
    }
}

fn object_props<'a, 'b>(t: &'b DataType<'a>) -> &'b Vec<(&'a openapirs::schema::PropertyName, TypeOrSchemaRef<'a>)> {
    match t {
        DataType::ActualType(a) => match &a.compiled_type {
            CompiledType::Normal(NormalCompiledType::Object(o)) => &o.properties,
            other => panic!("not an object: {:?}", other),
        },
        other => panic!("not an object: {:?}", other),
    }
}

fn is_normal_string(t: &TypeOrSchemaRef) -> bool {
    matches!(
        t,
        TypeOrSchemaRef::DataType(DataType::ActualType(a))
            if matches!(a.compiled_type, CompiledType::Normal(NormalCompiledType::String(_)))
    )
}

#[test]
fn end_to_end_pet() {
    let c = components(vec![(
        "Pet",
        object(vec![("name", string()), ("owner", schema_ref("Pet"))]),
    )]);
    let root = schema_ref("Pet");
    let mut stack = Stack::new();
    let r = compile_schema(&root, Some(&c), &mut stack, 0).unwrap();
    assert_eq!(ref_name(&r.type_or_ref), "Pet");
    assert_eq!(r.schemas.entries.len(), 1);
    assert_eq!(r.schemas.entries[0].0.as_str(), "Pet");
    let props = object_props(&r.schemas.entries[0].1);
    assert_eq!(props.len(), 2);
    assert_eq!(props[0].0.as_str(), "name");
    assert!(is_normal_string(&props[0].1));
    assert_eq!(props[1].0.as_str(), "owner");
    assert_eq!(ref_name(&props[1].1), "Pet");
}

#[test]
fn mutual_cycle_terminates() {
    let c = components(vec![
        ("A", object(vec![("b", schema_ref("B"))])),
        ("B", object(vec![("a", schema_ref("A"))])),
    ]);
    let root = schema_ref("A");
    let mut stack = Stack::new();
    let r = compile_schema(&root, Some(&c), &mut stack, 0).unwrap();
    assert_eq!(ref_name(&r.type_or_ref), "A");
    let names: Vec<&str> = r.schemas.entries.iter().map(|e| e.0.as_str()).collect();
    assert_eq!(names, vec!["B", "A"]);
    assert_eq!(ref_name(&object_props(&r.schemas.entries[0].1)[0].1), "A");
    assert_eq!(ref_name(&object_props(&r.schemas.entries[1].1)[0].1), "B");
}

#[test]
fn alias_collapses_to_target() {
    let c = components(vec![
        ("A", schema_ref("B")),
        ("B", object(vec![("x", string())])),
        ("Holder", object(vec![("first", schema_ref("A")), ("second", schema_ref("A"))])),
    ]);
    let root = schema_ref("Holder");
    let mut stack = Stack::new();
    let r = compile_schema(&root, Some(&c), &mut stack, 0).unwrap();
    let names: Vec<&str> = r.schemas.entries.iter().map(|e| e.0.as_str()).collect();
    assert_eq!(names, vec!["B", "Holder"]);
    let props = object_props(&r.schemas.entries[1].1);
    assert_eq!(ref_name(&props[0].1), "B");
    assert_eq!(ref_name(&props[1].1), "B");
}

fn nest(k: usize) -> SchemaDataType {
    let mut nested = string();
    for _ in 0..k {
        nested = array(nested);
    }
    nested
}

#[test]
fn depth_bound_on_nested_arrays() {
    let within = nest(24);
    let beyond = nest(25);
    let leaf = string();
    let mut stack = Stack::new();
    assert!(compile_schema(&within, None, &mut stack, 1000).is_ok());
    let mut e = compile_schema(&beyond, None, &mut stack, 1000).unwrap_err();
    loop {
        match e {
            Error::ArrayItemCompilation(inner) => e = *inner,
            Error::MaxDepthReached(d) => {
                assert_eq!(d, 1025);
                break;
            }
            other => panic!("unexpected {:?}", other),
        }
    }
    assert!(matches!(compile_schema(&leaf, None, &mut stack, 1025), Err(Error::MaxDepthReached(1025))));
    assert!(compile_schema(&leaf, None, &mut stack, 1024).is_ok());
}

#[test]
fn depth_bound_from_the_top() {
    let within = nest(1024);
    let beyond = nest(1025);
    let mut stack = Stack::new();
    assert!(compile_schema(&within, None, &mut stack, 0).is_ok());
    assert!(compile_schema(&beyond, None, &mut stack, 0).is_err());
}

#[test]
fn property_reference_compiles_inline() {
    let c = components(vec![("Foo", object(vec![("bar", string()), ("baz", boolean())]))]);
    let root = reference("#/components/schemas/Foo/properties/bar");
    let mut stack = Stack::new();
    let r = compile_schema(&root, Some(&c), &mut stack, 0).unwrap();
    assert!(is_normal_string(&r.type_or_ref));
    assert_eq!(r.schemas.entries.len(), 0);
    let missing = reference("#/components/schemas/Foo/properties/nope");
    assert!(matches!(
        compile_schema(&missing, Some(&c), &mut stack, 0),
        Err(Error::PropertyNotFoundInReferencedObject(_, _))
    ));
}

#[test]
fn nullable_string_is_distinct() {
    let mut stack = Stack::new();
    let n = nullable_string();
    let r = compile_schema(&n, None, &mut stack, 0).unwrap();
    assert!(matches!(
        r.type_or_ref,
        TypeOrSchemaRef::DataType(DataType::ActualType(ref a))
            if matches!(a.compiled_type, CompiledType::Nullable(NullableCompiledType::String(_)))
    ));
    let s = string();
    let r = compile_schema(&s, None, &mut stack, 0).unwrap();
    assert!(is_normal_string(&r.type_or_ref));
}

#[test]
fn one_of_keeps_order_and_reuses() {
    let c = components(vec![("A", object(vec![("x", boolean())]))]);
    let u = SchemaDataType::OneOf(OneOfType {
        one_of: vec![schema_ref("A"), schema_ref("A"), string()],
    });
    let mut stack = Stack::new();
    let r = compile_schema(&u, Some(&c), &mut stack, 0).unwrap();
    match &r.type_or_ref {
        TypeOrSchemaRef::DataType(DataType::OneOf(o)) => {
            assert_eq!(o.one_of.len(), 3);
            assert_eq!(ref_name(&o.one_of[0]), "A");
            assert_eq!(ref_name(&o.one_of[1]), "A");
            assert!(is_normal_string(&o.one_of[2]));
        }
        other => panic!("unexpected {:?}", other),
    }
    assert_eq!(r.schemas.entries.len(), 1);
}

#[test]
fn error_variants() {
    let c = components(vec![
        ("Str", string()),
        ("NoProps", actual(MaybeNullableTypeSchema::Object(Object { properties: None }))),
        ("Empty", SchemaDataType::Empty(EmptyType {})),
    ]);
    let mut stack = Stack::new();
    let not_found = schema_ref("Missing");
    assert!(matches!(compile_schema(&not_found, Some(&c), &mut stack, 0), Err(Error::SchemaReferenceNotFound(_))));
    assert!(matches!(compile_schema(&not_found, None, &mut stack, 0), Err(Error::SchemasNotDefinedButReferenced)));
    let param = reference("#/components/parameters/p");
    assert!(matches!(compile_schema(&param, Some(&c), &mut stack, 0), Err(Error::UnexpectedReferenceType(_))));
    let bad = reference("#/components/schemas/Str/oops/x");
    assert!(matches!(compile_schema(&bad, Some(&c), &mut stack, 0), Err(Error::ReferenceParseError(_))));
    let incompatible = reference("#/components/schemas/Str/properties/x");
    assert!(matches!(compile_schema(&incompatible, Some(&c), &mut stack, 0), Err(Error::ReferenceToIncompatibleObject(_))));
    let no_props = reference("#/components/schemas/NoProps/properties/x");
    assert!(matches!(compile_schema(&no_props, Some(&c), &mut stack, 0), Err(Error::PropertiesNotFoundInReferencedObject(_))));
    let empty = schema_ref("Empty");
    match compile_schema(&empty, Some(&c), &mut stack, 0) {
        Err(Error::SchemaCompilation(n, inner)) => {
            assert_eq!(n.as_str(), "Empty");
            assert!(matches!(*inner, Error::NotImplemented(Unsupported::EmptyType)));
        }
        other => panic!("unexpected {:?}", other),
    }
    let no_items = actual(MaybeNullableTypeSchema::Array(Array { items: None }));
    assert!(matches!(compile_schema(&no_items, None, &mut stack, 0), Err(Error::NoItemsInArray)));
    let explicit_array = actual(MaybeNullableTypeSchema::Normal(TypeSchema::Array(Array { items: Some(Box::new(string())) })));
    assert!(matches!(
        compile_schema(&explicit_array, None, &mut stack, 0),
        Err(Error::NotImplemented(Unsupported::ArrayType))
    ));
    let null = actual(MaybeNullableTypeSchema::Normal(TypeSchema::Null));
    assert!(matches!(compile_schema(&null, None, &mut stack, 0), Err(Error::NotImplemented(Unsupported::NullType))));
    let bad_prop = object(vec![("p", schema_ref("Missing"))]);
    match compile_schema(&bad_prop, Some(&c), &mut stack, 0) {
        Err(Error::PropertyCompilation(p, inner)) => {
            assert_eq!(p.as_str(), "p");
            assert!(matches!(*inner, Error::SchemaReferenceNotFound(_)));
        }
        other => panic!("unexpected {:?}", other),
    }
    let all_of = SchemaDataType::AllOf(AllOfType { all_of: vec![string(), schema_ref("Missing")] });
    assert!(matches!(compile_schema(&all_of, Some(&c), &mut stack, 0), Err(Error::SchemaReferenceNotFound(_))));
}

fn json_body(schema: SchemaDataType) -> SchemaBodyOrRef {
    SchemaBodyOrRef::RequestBody(RequestBody {
        description: None,
        content: vec![("application/json".to_string(), MediaType { schema: Some(schema) })],
        required: None,
    })
}

fn post_with(body: SchemaBodyOrRef) -> PathItem {
    PathItem {
        sref: None,
        summary: None,
        get: None,
        put: None,
        post: Some(Operation {
            tags: None,
            summary: None,
            description: None,
            external_docs: None,
            operation_id: None,
            parameters: None,
            request_body: Some(body),
            responses: None,
        }),
        delete: None,
        options: None,
        head: None,
        patch: None,
        trace: None,
        servers: None,
        parameters: None,
    }
}

#[test]
fn shared_schema_compiled_once() {
    let d = Description {
        openapi: Version::from_str("3.0.3").unwrap(),
        info: Info {
            title: TaggedString::new("pets".to_string()),
            version: TaggedString::new("1".to_string()),
            description: None,
            term_of_service: None,
            contact: None,
            license: None,
        },
        servers: vec![],
        paths: Some(vec![
            (Path::from_str("/a").unwrap(), post_with(json_body(schema_ref("A")))),
            (Path::from_str("/b").unwrap(), post_with(json_body(schema_ref("A")))),
        ]),
        components: Some(components(vec![("A", object(vec![("x", string())]))])),
    };
    let compiled = compile(&d).unwrap();
    assert_eq!(compiled.operations.len(), 2);
    assert_eq!(compiled.schemas.entries.len(), 1);
    assert_eq!(compiled.schemas.entries[0].0.as_str(), "A");
    for op in compiled.operations.iter() {
        match &op.request_body_or_ref {
            Some(RequestBodyOrReference::Body(b)) => {
                assert_eq!(ref_name(b.json_type_or_ref.as_ref().unwrap()), "A")
            }
            other => panic!("unexpected {:?}", other),
        }
    }
}

fn description_with(schemas: Vec<(&str, SchemaDataType)>, body: SchemaDataType) -> Description {
    Description {
        openapi: Version::from_str("3.0.3").unwrap(),
        info: Info {
            title: TaggedString::new("t".to_string()),
            version: TaggedString::new("1".to_string()),
            description: None,
            term_of_service: None,
            contact: None,
            license: None,
        },
        servers: vec![],
        paths: Some(vec![(Path::from_str("/x").unwrap(), post_with(json_body(body)))]),
        components: Some(components(schemas)),
    }
}

#[test]
fn models_of_scalar_objects() {
    let d = description_with(vec![("A", object(vec![("name", string()), ("flag", boolean())]))], schema_ref("A"));
    let compiled = compile(&d).unwrap();
    assert!(can_build(&compiled));
    let models = build(&compiled);
    assert_eq!(models.len(), 1);
    match &models[0].1 {
        Model::Object(o) => {
            assert_eq!(o.properties.len(), 2);
            assert_eq!(o.properties[0].0.as_str(), "name");
            assert!(matches!(o.properties[0].1.simple_type, SimpleType::Normal(NormalType::String(_))));
            assert_eq!(o.properties[1].0.as_str(), "flag");
            assert!(matches!(o.properties[1].1.simple_type, SimpleType::Normal(NormalType::Boolean(_))));
        }
        other => panic!("unexpected {:?}", other),
    }
    let nested = description_with(
        vec![("A", object(vec![("b", schema_ref("B"))])), ("B", object(vec![("x", string())]))],
        schema_ref("A"),
    );
    let compiled = compile(&nested).unwrap();
    assert!(!can_build(&compiled));
}

#[test]
fn named_request_body_compiled_once() {
    let mut c = components(vec![("A", object(vec![("x", string())]))]);
    c.request_bodies = Some(vec![(
        TaggedString::new("NewA".to_string()),
        json_body(schema_ref("A")),
    )]);
    let by_name = || SchemaBodyOrRef::Reference(SRef::from_str("#/components/requestBodies/NewA").unwrap());
    let d = Description {
        openapi: Version::from_str("3.1.0").unwrap(),
        info: Info {
            title: TaggedString::new("t".to_string()),
            version: TaggedString::new("1".to_string()),
            description: None,
            term_of_service: None,
            contact: None,
            license: None,
        },
        servers: vec![],
        paths: Some(vec![
            (Path::from_str("/a").unwrap(), post_with(by_name())),
            (Path::from_str("/b").unwrap(), post_with(by_name())),
        ]),
        components: Some(c),
    };
    let compiled = compile(&d).unwrap();
    assert_eq!(compiled.request_bodies.entries.len(), 1);
    assert_eq!(compiled.request_bodies.entries[0].0.as_str(), "NewA");
    assert_eq!(compiled.schemas.entries.len(), 1);
    for op in compiled.operations.iter() {
        match &op.request_body_or_ref {
            Some(RequestBodyOrReference::Reference(n)) => assert_eq!(n.as_str(), "NewA"),
            other => panic!("unexpected {:?}", other),
        }
    }
    let missing = description_with(vec![], SchemaDataType::Reference(Reference {
        sref: SRef::from_str("#/components/schemas/Nope").unwrap(),
    }));
    assert!(compile(&missing).is_err());
}

#[test]
fn chain_is_asked_before_registry() {
    let c = components(vec![("A", object(vec![("x", string())]))]);
    let root = schema_ref("A");
    let mut stack = Stack::new();
    stack.push_ref(&c.schemas.as_ref().unwrap()[0].0);
    let r = compile_schema(&root, None, &mut stack, 0).unwrap();
    assert_eq!(ref_name(&r.type_or_ref), "A");
    assert_eq!(r.schemas.entries.len(), 0);
}

fn nullable_array(items: SchemaDataType) -> SchemaDataType {
    actual(MaybeNullableTypeSchema::Nullable(NullableTypeSchema {
        nullable: AlwaysTrue::from_bool(true).unwrap(),
        schema: NullalbleTypeSchema::Array(Array { items: Some(Box::new(items)) }),
    }))
}

#[test]
fn depth_bound_on_nullable_arrays() {
    let mut within = string();
    for _ in 0..1024 {
        within = nullable_array(within);
    }
    let beyond = nullable_array(nest(1024));
    let mut stack = Stack::new();
    assert!(compile_schema(&within, None, &mut stack, 0).is_ok());
    assert!(compile_schema(&beyond, None, &mut stack, 0).is_err());
}
