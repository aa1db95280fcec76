use openapirs::schema::components::Components;
use openapirs::schema::http_status_code::{Error as CodeError, HttpStatusCode, Pattern, Specific};
use openapirs::schema::parameter::{
    ContentSchema, NoContent, Parameter, ParameterOrReference, PathFlags, Place, QueryFlags,
};
use openapirs::schema::path::{Path, PathParseError};
use openapirs::schema::path_item::{OperationType, PathItem};
use openapirs::schema::reference::Reference;
use openapirs::schema::sref::{Error as SRefError, SRef, SRefParameter, SRefSchemas};
use openapirs::schema::version::{Error as VersionError, Version, VersionPart};
use openapirs::typing::{AlwaysFalse, AlwaysTrue, TaggedString, TaggedURI};

#[test]
fn correct_version_parse() {
    let parse_result = Version::from_str("3.1.2");
    assert!(parse_result.is_ok());
    assert_eq!(
        parse_result.unwrap(),
        Version {
            major: 3,
            minor: 1,
            patch: 2
        }
    );
}

#[test]
fn version_invalid_major_num_format() {
    let parse_result = Version::from_str("a.1.2");
    assert!(parse_result.is_err());
    assert!(parse_result.unwrap_err().to_string().contains("major"));
}

#[test]
fn version_invalid_minor_num_format() {
    let parse_result = Version::from_str("2.a.2");
    assert!(parse_result.is_err());
    assert!(parse_result.unwrap_err().to_string().contains("minor"));
}

#[test]
fn version_invalid_patch_num_format() {
    let parse_result = Version::from_str("3.1.p");
    assert!(parse_result.is_err());
    assert!(parse_result.unwrap_err().to_string().contains("patch"));
}

#[test]
fn version_missing_and_extra_parts() {
    assert_eq!(
        Version::from_str("3"),
        Err(VersionError::NoExpectedVersionPart(VersionPart::Minor))
    );
    assert_eq!(
        Version::from_str("3.0"),
        Err(VersionError::NoExpectedVersionPart(VersionPart::Patch))
    );
    assert_eq!(
        Version::from_str("3.0.1.7.9"),
        Err(VersionError::UnexpectedRemainder("7".to_string()))
    );
    assert_eq!(
        Version::from_str("+3.0.4294967295"),
        Ok(Version { major: 3, minor: 0, patch: 4294967295 })
    );
    assert_eq!(
        Version::from_str("3.0.4294967296"),
        Err(VersionError::InvalidVersionPart(VersionPart::Patch))
    );
    assert_eq!(
        Version::from_str("3..1"),
        Err(VersionError::InvalidVersionPart(VersionPart::Minor))
    );
}

#[test]
fn schema_pointer_keys() {
    let whole = SRef::from_str("#/components/schemas/Pet").unwrap();
    match whole.schemas_sref() {
        Ok(Some(SRefSchemas::Normal(n))) => assert_eq!(n.as_str(), "Pet"),
        other => panic!("unexpected {:?}", other),
    }
    let prop = SRef::from_str("#/components/schemas/Pet/properties/name").unwrap();
    match prop.schemas_sref() {
        Ok(Some(SRefSchemas::ObjProperty((n, p)))) => {
            assert_eq!(n.as_str(), "Pet");
            assert_eq!(p.as_str(), "name");
        }
        other => panic!("unexpected {:?}", other),
    }
    for bad in [
        "#/components/schemas/Pet/items/name",
        "#/components/schemas/Pet/properties",
        "#/components/schemas/Pet/properties/a/b",
    ] {
        assert!(
            matches!(SRef::from_str(bad).unwrap().schemas_sref(), Err(SRefError::SRefSchemaParseError(_))),
            "{bad}"
        );
    }
    let param = SRef::from_str("#/components/parameters/limit").unwrap();
    assert!(matches!(param.schemas_sref(), Ok(None)));
    assert_eq!(param.parameter_sref().unwrap().as_str(), "limit");
    assert!(param.request_body_sref().is_none());
    let body = SRef::from_str("#/components/requestBodies/NewPet").unwrap();
    assert_eq!(body.request_body_sref().unwrap().as_str(), "NewPet");
    let resp = SRef::from_str("#/components/responses/NotFound").unwrap();
    assert_eq!(resp.responses_sref().unwrap().as_str(), "NotFound");
}

#[test]
fn pointer_must_be_uri_reference() {
    assert!(SRef::from_str("#/components/schemas/Pet").is_ok());
    assert!(SRef::from_str("http://[broken").is_err());
    assert!(SRef::from_str("a b").is_err());
}

#[test]
fn tagged_uri_parsing() {
    enum Tag {}
    let u: TaggedURI<Tag> = TaggedURI::from_str("https://example.com/terms").unwrap();
    assert_eq!(u.as_str(), "https://example.com/terms");
    assert!(TaggedURI::<Tag>::from_str("not a uri").is_err());
    assert!(TaggedURI::<Tag>::from_str("relative/path").is_err());
    assert!(TaggedURI::<Tag>::from_str(":").is_err());
    assert!(TaggedURI::<Tag>::from_str("1a:b").is_err());
}

#[test]
fn always_true_and_false() {
    assert!(AlwaysTrue::from_bool(true).is_ok());
    assert!(AlwaysTrue::from_bool(false).is_err());
    assert!(AlwaysFalse::from_bool(false).is_ok());
    assert!(AlwaysFalse::from_bool(true).is_err());
}

#[test]
fn http_status_codes() {
    match HttpStatusCode::from_str("404") {
        Ok(HttpStatusCode::Specific(c)) => assert_eq!(c.value(), 404),
        other => panic!("unexpected {:?}", other),
    }
    match HttpStatusCode::from_str("2XX") {
        Ok(HttpStatusCode::Pattern(p)) => assert_eq!(p.code_class(), 2),
        other => panic!("unexpected {:?}", other),
    }
    assert_eq!(
        HttpStatusCode::from_str("600"),
        Err(CodeError::CodeOutsideRange(600, 100, 599))
    );
    assert_eq!(
        HttpStatusCode::from_str("99"),
        Err(CodeError::CodeOutsideRange(99, 100, 599))
    );
    assert_eq!(
        HttpStatusCode::from_str("6XX"),
        Err(CodeError::InvalidPattern("6XX".to_string()))
    );
    assert_eq!(
        HttpStatusCode::from_str("70000"),
        Err(CodeError::InvalidPattern("70000".to_string()))
    );
    assert!(Specific::try_from(100).is_ok());
    assert!(Specific::try_from(599).is_ok());
    assert!(Pattern::from_str("5X").is_err());
}

#[test]
fn path_parameters_in_order() {
    let p = Path::from_str("/pets/{petId}/toys/{toyId}").unwrap();
    let mut it = p.path_params_iter();
    assert_eq!(it.next(), Some(Ok("petId".to_string())));
    assert_eq!(it.next(), Some(Ok("toyId".to_string())));
    assert_eq!(it.next(), None);
    let bad = Path::from_str("/pets/{petId").unwrap();
    let mut it = bad.path_params_iter();
    assert_eq!(
        it.next(),
        Some(Err(PathParseError::CannotFindCloseBrackets("/pets/{petId".to_string(), 6)))
    );
    assert!(Path::from_str("pets").is_err());
    assert!(Path::from_str("").is_ok());
}

fn path_param(name: &str) -> Parameter {
    Parameter {
        name: TaggedString::new(name.to_string()),
        description: None,
        place: Place::Path(PathFlags { required: AlwaysTrue::from_bool(true).unwrap(), deprecated: false }),
        content_schema: ContentSchema::Absent(NoContent {}),
    }
}

fn query_param(name: &str) -> Parameter {
    Parameter {
        name: TaggedString::new(name.to_string()),
        description: None,
        place: Place::Query(QueryFlags { required: false, deprecated: false, allow_empty_value: false }),
        content_schema: ContentSchema::Absent(NoContent {}),
    }
}

fn param_ref(ptr: &str) -> ParameterOrReference {
    ParameterOrReference::Reference(Reference { sref: SRef::from_str(ptr).unwrap() })
}

#[test]
fn parameter_lookup_follows_references() {
    let components = Components {
        schemas: None,
        responses: None,
        request_bodies: None,
        parameters: Some(vec![
            (TaggedString::new("a".to_string()), param_ref("#/components/parameters/b")),
            (TaggedString::new("b".to_string()), ParameterOrReference::Parameter(path_param("id"))),
            (TaggedString::new("loop".to_string()), param_ref("#/components/parameters/loop")),
        ]),
    };
    let a: SRefParameter = TaggedString::new("a".to_string());
    assert_eq!(components.find_parameter(&a).unwrap().name.as_str(), "id");
    let missing: SRefParameter = TaggedString::new("zzz".to_string());
    assert!(components.find_parameter(&missing).is_none());
    let looping: SRefParameter = TaggedString::new("loop".to_string());
    assert!(components.find_parameter(&looping).is_none());
    assert!(query_param("q").is_query());
    assert!(!query_param("q").is_header());
}

#[test]
fn operations_in_slot_order() {
    let op = || openapirs::schema::operation::Operation {
        tags: None,
        summary: None,
        description: None,
        external_docs: None,
        operation_id: None,
        parameters: None,
        request_body: None,
        responses: None,
    };
    let item = PathItem {
        sref: None,
        summary: None,
        get: Some(op()),
        put: None,
        post: Some(op()),
        delete: None,
        options: Some(op()),
        head: None,
        patch: None,
        trace: Some(op()),
        servers: None,
        parameters: None,
    };
    let mut it = item.operations_iter();
    let mut seen = vec![];
    while let Some((t, _)) = it.next() {
        seen.push(t);
    }
    assert_eq!(
        seen,
        vec![OperationType::Get, OperationType::Post, OperationType::Options, OperationType::Trace]
    );
}
