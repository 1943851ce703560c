use serde_json::{Number, Value};
use yaspec::error::Error;
use yaspec::lossy::LosesAdditional;
use yaspec::migrate::{drops_additional_properties, lossy_schemas, migrate_schema, MigrateExt};
use yaspec::ordered_map::OrderedMap;
use yaspec::v3_0;
use yaspec::v3_1;

fn document(version: &str) -> v3_0::OpenAPI {
    v3_0::OpenAPI {
        openapi: version.to_string(),
        info: v3_0::Info {
            title: "Todo".to_string(),
            description: Some("Tasks".to_string()),
            terms_of_service: None,
            contact: None,
            license: Some(v3_0::License { name: "MIT".to_string(), url: None }),
            version: "1.0".to_string(),
        },
        servers: None,
        paths: None,
        components: None,
        security: None,
        tags: Some(vec![v3_0::Tag { name: "t".to_string(), description: None, external_docs: None }]),
        external_docs: None,
    }
}

#[test]
fn single_enum_becomes_const() {
    let a = v3_0::Schema { enum_: Some(vec![Value::from(42)]), ..Default::default() };
    let b = migrate_schema(&a);
    assert_eq!(b.const_, Some(Value::from(42)));
    assert_eq!(b.enum_, None);
}

#[test]
fn longer_enum_is_kept() {
    let a = v3_0::Schema { enum_: Some(vec![Value::from(1), Value::from(2)]), ..Default::default() };
    let b = migrate_schema(&a);
    assert_eq!(b.enum_, Some(vec![Value::from(1), Value::from(2)]));
    assert_eq!(b.const_, None);
}

#[test]
fn exclusive_maximum_flag_moves_bound() {
    let a = v3_0::Schema {
        maximum: Some(Number::from(10)),
        exclusive_maximum: Some(true),
        ..Default::default()
    };
    let b = migrate_schema(&a);
    assert_eq!(b.exclusive_maximum, Some(Number::from(10)));
    assert_eq!(b.maximum, None);
}

#[test]
fn clear_exclusive_maximum_keeps_bound() {
    let a = v3_0::Schema {
        maximum: Some(Number::from(10)),
        exclusive_maximum: Some(false),
        ..Default::default()
    };
    let b = migrate_schema(&a);
    assert_eq!(b.maximum, Some(Number::from(10)));
    assert_eq!(b.exclusive_maximum, None);
}

#[test]
fn exclusive_minimum_flag_moves_bound() {
    let a = v3_0::Schema {
        minimum: Some(Number::from(-1)),
        exclusive_minimum: Some(true),
        ..Default::default()
    };
    let b = migrate_schema(&a);
    assert_eq!(b.exclusive_minimum, Some(Number::from(-1)));
    assert_eq!(b.minimum, None);
}

#[test]
fn nullable_type_becomes_type_list() {
    let a = v3_0::Schema {
        type_: Some(v3_0::SchemaType::String),
        nullable: Some(true),
        ..Default::default()
    };
    assert_eq!(migrate_schema(&a).type_, Some(vec![v3_1::SchemaType::String, v3_1::SchemaType::Null]));
    let b = v3_0::Schema { type_: Some(v3_0::SchemaType::Integer), ..Default::default() };
    assert_eq!(migrate_schema(&b).type_, Some(vec![v3_1::SchemaType::Integer]));
    let c = v3_0::Schema { nullable: Some(true), ..Default::default() };
    assert_eq!(migrate_schema(&c).type_, None);
}

#[test]
fn single_example_becomes_examples() {
    let a = v3_0::Schema { example: Some(Value::from("x")), ..Default::default() };
    assert_eq!(migrate_schema(&a).examples, Some(vec![Value::from("x")]));
    assert_eq!(migrate_schema(&v3_0::Schema::default()).examples, None);
}

#[test]
fn nested_references_become_reference_schemas() {
    let mut props = OrderedMap::new();
    props.insert(
        "pet".to_string(),
        v3_0::Referenceable::Reference(v3_0::Reference { path: "#/components/schemas/Pet".to_string() }),
    );
    let a = v3_0::Schema {
        type_: Some(v3_0::SchemaType::Object),
        properties: Some(props),
        ..Default::default()
    };
    let b = migrate_schema(&a);
    let p = b.properties.unwrap();
    assert_eq!(p.entries[0].0, "pet");
    assert_eq!(p.entries[0].1.ref_, Some("#/components/schemas/Pet".to_string()));
    assert_eq!(p.entries[0].1.type_, None);
}

#[test]
fn additional_properties_are_reported() {
    let inner = v3_0::Schema {
        additional_properties: Some(v3_0::BoolOr::Bool(false)),
        ..Default::default()
    };
    let a = v3_0::Schema {
        items: Some(Box::new(v3_0::Referenceable::Value(inner))),
        ..Default::default()
    };
    assert!(drops_additional_properties(&a));
    assert_eq!(migrate_schema(&a).items.map(|_| ()), Some(()));
    assert!(!drops_additional_properties(&v3_0::Schema::default()));

    let mut doc = document("3.0.3");
    let mut schemas = OrderedMap::new();
    schemas.insert("Plain".to_string(), v3_0::Referenceable::Value(v3_0::Schema::default()));
    schemas.insert("Loose".to_string(), v3_0::Referenceable::Value(a));
    doc.components = Some(v3_0::Components {
        schemas: Some(schemas),
        responses: None,
        parameters: None,
        examples: None,
        request_bodies: None,
        headers: None,
        security_schemes: None,
        links: None,
        callbacks: None,
    });
    assert_eq!(lossy_schemas(&doc), vec!["Loose".to_string()]);
}

#[test]
fn other_dialect_is_refused() {
    let doc = document("2.0");
    assert_eq!(doc.to_v3_1().err(), Some(Error::PreconditionViolation));
}

#[test]
fn document_is_migrated_field_by_field() {
    let doc = document("3.0.3");
    let out = doc.to_v3_1().unwrap();
    assert_eq!(out.openapi, "3.1.0");
    assert_eq!(out.info.title, "Todo");
    assert_eq!(out.info.summary, None);
    assert_eq!(out.info.description, Some("Tasks".to_string()));
    assert_eq!(
        out.info.license,
        Some(v3_1::License { name: "MIT".to_string(), identifier: None, url: None })
    );
    assert!(out.paths.entries.is_empty());
    assert_eq!(out.tags.unwrap()[0].name, "t");
}

#[test]
fn references_gain_empty_summary_and_description() {
    let r = v3_0::Reference { path: "#/x".to_string() };
    assert_eq!(
        r.to_v3_1(),
        v3_1::Reference { path: "#/x".to_string(), summary: None, description: None }
    );
}

#[test]
fn referenceable_accessors() {
    let r: v3_0::Referenceable<i64> = v3_0::Referenceable::Reference(v3_0::Reference { path: "#/a".to_string() });
    assert_eq!(r.reference(), Some(v3_0::Reference { path: "#/a".to_string() }));
    let v: v3_0::Referenceable<i64> = v3_0::Referenceable::Value(4);
    assert_eq!(v.value(), Some(4));
    let w: v3_0::Referenceable<i64> = v3_0::Referenceable::Value(4);
    assert_eq!(w.map(|x| x + 1), v3_0::Referenceable::Value(5));
    let n: v3_0::Referenceable<i64> = v3_0::Referenceable::Reference(v3_0::Reference { path: "#/b".to_string() });
    assert_eq!(n.map(|x| x + 1), v3_0::Referenceable::Reference(v3_0::Reference { path: "#/b".to_string() }));
}

#[test]
fn callbacks_and_operations_are_migrated() {
    let op = v3_0::Operation {
        tags: None,
        summary: Some("list".to_string()),
        description: None,
        external_docs: None,
        operation_id: Some("listTodos".to_string()),
        parameters: None,
        request_body: None,
        responses: v3_0::Responses { default: None, items: OrderedMap::new() },
        callbacks: None,
        deprecated: None,
        security: None,
        servers: None,
    };
    let item = v3_0::PathItem {
        summary: None,
        description: None,
        servers: None,
        parameters: None,
        get: Some(op),
        put: None,
        post: None,
        delete: None,
        options: None,
        head: None,
        patch: None,
        trace: None,
    };
    let mut paths = OrderedMap::new();
    paths.insert("/todos".to_string(), v3_0::Referenceable::Value(item));
    let mut doc = document("3.0.0");
    doc.paths = Some(paths);
    let out = doc.to_v3_1().unwrap();
    assert_eq!(out.paths.entries[0].0, "/todos");
    match &out.paths.entries[0].1 {
        v3_1::Referenceable::Value(p) => {
            assert_eq!(p.get.as_ref().unwrap().operation_id, Some("listTodos".to_string()));
            assert!(p.post.is_none());
        }
        _ => panic!("expected a path item"),
    }
}

#[test]
fn additional_properties_anywhere_in_document_are_reported() {
    let loose = v3_0::Schema { additional_properties: Some(v3_0::BoolOr::Bool(true)), ..Default::default() };
    let param = v3_0::Parameter {
        name: "filter".to_string(),
        in_: "query".to_string(),
        description: None,
        required: None,
        deprecated: None,
        allow_empty_value: None,
        schema: Some(loose),
        example: None,
        examples: None,
        style: None,
        explode: None,
        allow_reserved: None,
        content: None,
    };
    let op = v3_0::Operation {
        tags: None,
        summary: None,
        description: None,
        external_docs: None,
        operation_id: None,
        parameters: Some(vec![v3_0::Referenceable::Value(param)]),
        request_body: None,
        responses: v3_0::Responses { default: None, items: OrderedMap::new() },
        callbacks: None,
        deprecated: None,
        security: None,
        servers: None,
    };
    let item = v3_0::PathItem {
        summary: None,
        description: None,
        servers: None,
        parameters: None,
        get: Some(op),
        put: None,
        post: None,
        delete: None,
        options: None,
        head: None,
        patch: None,
        trace: None,
    };
    let mut paths = OrderedMap::new();
    paths.insert("/items".to_string(), v3_0::Referenceable::Value(item));
    let mut doc = document("3.0.3");
    assert!(!doc.drops_additional());
    doc.paths = Some(paths);
    assert!(doc.drops_additional());
    assert!(lossy_schemas(&doc).is_empty());
}

#[test]
fn media_type_schema_reference_stays_a_reference() {
    let m = v3_0::MediaType {
        schema: Some(v3_0::Referenceable::Reference(v3_0::Reference { path: "#/components/schemas/Pet".to_string() })),
        example: None,
        examples: None,
        encoding: None,
    };
    let out = m.to_v3_1();
    assert_eq!(
        out.schema,
        Some(v3_1::Referenceable::Reference(v3_1::Reference {
            path: "#/components/schemas/Pet".to_string(),
            summary: None,
            description: None,
        }))
    );
    let inline = v3_0::MediaType {
        schema: Some(v3_0::Referenceable::Value(v3_0::Schema {
            type_: Some(v3_0::SchemaType::String),
            ..Default::default()
        })),
        example: None,
        examples: None,
        encoding: None,
    };
    match inline.to_v3_1().schema {
        Some(v3_1::Referenceable::Value(s)) => assert_eq!(s.type_, Some(vec![v3_1::SchemaType::String])),
        other => panic!("expected an inline schema, got {:?}", other),
    }
}
