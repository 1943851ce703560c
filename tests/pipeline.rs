use yaspec::error::Error;
use yaspec::ir::{Schema as Entity, Shape};
use yaspec::openapi::parse_openapi;
use yaspec::ordered_map::OrderedMap;
use yaspec::jsonschema::SchemaType;
use yaspec::v3_0;
use yaspec::v3_1;

fn document(version: &str, schemas: Option<OrderedMap<v3_0::Referenceable<v3_0::Schema>>>) -> v3_0::OpenAPI {
    v3_0::OpenAPI {
        openapi: version.to_string(),
        info: v3_0::Info {
            title: "Pets".to_string(),
            description: None,
            terms_of_service: None,
            contact: None,
            license: None,
            version: "2.1".to_string(),
        },
        servers: None,
        paths: None,
        components: Some(v3_0::Components {
            schemas,
            responses: None,
            parameters: None,
            examples: None,
            request_bodies: None,
            headers: None,
            security_schemes: None,
            links: None,
            callbacks: None,
        }),
        security: None,
        tags: None,
        external_docs: None,
    }
}

#[test]
fn openapi_document_becomes_entities() {
    let mut props = OrderedMap::new();
    props.insert(
        "nickname".to_string(),
        v3_0::Referenceable::Value(v3_0::Schema {
            type_: Some(v3_0::SchemaType::String),
            nullable: Some(true),
            ..Default::default()
        }),
    );
    let mut schemas = OrderedMap::new();
    schemas.insert(
        "Pet".to_string(),
        v3_0::Referenceable::Value(v3_0::Schema {
            type_: Some(v3_0::SchemaType::Object),
            properties: Some(props),
            required: Some(vec!["nickname".to_string()]),
            ..Default::default()
        }),
    );
    let y = parse_openapi(&document("3.0.3", Some(schemas))).unwrap();
    assert_eq!(y.name, "Pets");
    assert_eq!(y.version, "2.1");
    assert_eq!(y.yaspec, "0.1.0");
    assert_eq!(y.entities.entries.len(), 1);
    assert_eq!(y.entities.entries[0].0, "Pet");
    match &y.entities.entries[0].1.inner {
        Entity::Record { fields } => {
            assert_eq!(fields.entries[0].1.inner, Shape::Nullable { inner: Box::new(Shape::String) });
        }
        other => panic!("expected a record, got {:?}", other),
    }
    assert!(y.services.entries.is_empty());
}

#[test]
fn swagger_document_is_refused() {
    assert_eq!(parse_openapi(&document("2.0", None)).err(), Some(Error::PreconditionViolation));
}

fn flat(props: &[(&str, SchemaType)]) -> yaspec::jsonschema::Schema {
    let mut properties = OrderedMap::new();
    for (name, t) in props {
        properties.insert(
            name.to_string(),
            yaspec::jsonschema::Schema { type_: Some(vec![*t]), ..Default::default() },
        );
    }
    yaspec::jsonschema::Schema {
        type_: Some(vec![yaspec::jsonschema::SchemaType::Object]),
        properties: Some(properties),
        required: Some(props.iter().map(|p| p.0.to_string()).collect()),
        ..Default::default()
    }
}

#[test]
fn built_entities_follow_schema_order() {
    let mut schemas = OrderedMap::new();
    schemas.insert("C".to_string(), flat(&[("p", SchemaType::String)]));
    schemas.insert("A".to_string(), flat(&[("q", SchemaType::Integer)]));
    schemas.insert("B".to_string(), flat(&[("r", SchemaType::Boolean)]));
    let doc = v3_1::OpenAPI {
        openapi: "3.1.0".to_string(),
        info: v3_1::Info {
            title: "T".to_string(),
            summary: None,
            description: None,
            terms_of_service: None,
            contact: None,
            license: None,
            version: "1".to_string(),
        },
        json_schema_dialect: None,
        servers: None,
        paths: OrderedMap::new(),
        webhooks: None,
        components: Some(v3_1::Components {
            schemas: Some(schemas),
            responses: None,
            parameters: None,
            examples: None,
            request_bodies: None,
            headers: None,
            security_schemes: None,
            links: None,
            callbacks: None,
            path_items: None,
        }),
        security: None,
        tags: None,
        external_docs: None,
    };
    let y = yaspec::openapi::build_spec(&doc).unwrap();
    let names: Vec<String> = y.entities.entries.iter().map(|e| e.0.clone()).collect();
    assert_eq!(names, vec!["C".to_string(), "A".to_string(), "B".to_string()]);
    match &y.entities.entries[0].1.inner {
        Entity::Record { fields } => assert_eq!(fields.entries[0].1.inner, Shape::String),
        other => panic!("expected a record, got {:?}", other),
    }
}
