use yaspec::error::Error;
use yaspec::ir::{Entry, Literal, Schema as Entity, Shape};
use yaspec::jsonschema::{BoolOr, Schema, SchemaType};
use yaspec::ordered_map::OrderedMap;
use yaspec::resolve::{resolve, resolve_components, resolve_entity, resolve_shape, Entities};
use yaspec::text::pascal_case;

fn typed(ts: Vec<SchemaType>) -> Schema {
    Schema { type_: Some(ts), ..Default::default() }
}

fn path(segs: &[&str]) -> Vec<String> {
    segs.iter().map(|s| s.to_string()).collect()
}

fn keys<V>(m: &OrderedMap<V>) -> Vec<String> {
    m.entries.iter().map(|e| e.0.clone()).collect()
}

fn props(items: Vec<(&str, Schema)>) -> OrderedMap<Schema> {
    OrderedMap { entries: items.into_iter().map(|(k, v)| (k.to_string(), v)).collect() }
}

#[test]
fn string_type_resolves_to_string() {
    let s = typed(vec![SchemaType::String]);
    let mut acc: Entities = OrderedMap::new();
    assert_eq!(resolve_shape(&path(&["A"]), &s, &mut acc), Ok(Shape::String));
    assert!(acc.entries.is_empty());
    // the same schema elsewhere, with an accumulator that already holds entities
    let mut acc2: Entities = OrderedMap::new();
    acc2.insert("Other".to_string(), Entry::bare(Entity::default()));
    assert_eq!(resolve_shape(&path(&["x", "y", "z"]), &s, &mut acc2), Ok(Shape::String));
    assert_eq!(keys(&acc2), vec!["Other".to_string()]);
}

#[test]
fn primitive_types_map_directly() {
    let mut acc: Entities = OrderedMap::new();
    assert_eq!(resolve_shape(&path(&["A"]), &typed(vec![SchemaType::Integer]), &mut acc), Ok(Shape::Int));
    assert_eq!(resolve_shape(&path(&["A"]), &typed(vec![SchemaType::Number]), &mut acc), Ok(Shape::Float));
    assert_eq!(resolve_shape(&path(&["A"]), &typed(vec![SchemaType::Boolean]), &mut acc), Ok(Shape::Bool));
}

#[test]
fn string_or_null_is_nullable_string() {
    let s = typed(vec![SchemaType::String, SchemaType::Null]);
    let mut acc: Entities = OrderedMap::new();
    assert_eq!(
        resolve_shape(&path(&["A"]), &s, &mut acc),
        Ok(Shape::Nullable { inner: Box::new(Shape::String) })
    );
    assert!(acc.entries.is_empty());
}

fn nested_object() -> Schema {
    let owner = Schema {
        type_: Some(vec![SchemaType::Object]),
        properties: Some(props(vec![("name", typed(vec![SchemaType::String]))])),
        ..Default::default()
    };
    Schema {
        type_: Some(vec![SchemaType::Object]),
        properties: Some(props(vec![("owner_info", owner), ("count", typed(vec![SchemaType::Integer]))])),
        required: Some(vec!["owner_info".to_string()]),
        ..Default::default()
    }
}

#[test]
fn naming_is_deterministic() {
    let s = nested_object();
    let a = resolve(&path(&["todo"]), &s).unwrap();
    let b = resolve(&path(&["todo"]), &s).unwrap();
    assert_eq!(keys(&a.entities), vec!["TodoOwnerInfo".to_string(), "Todo".to_string()]);
    assert_eq!(keys(&a.entities), keys(&b.entities));
    assert_eq!(a.shape, Shape::Entity { target: "Todo".to_string() });
}

#[test]
fn nested_objects_are_flattened_into_named_entities() {
    let s = nested_object();
    let r = resolve(&path(&["todo"]), &s).unwrap();
    let todo = &r.entities.entries[1].1;
    match &todo.inner {
        Entity::Record { fields } => {
            assert_eq!(keys(fields), vec!["owner_info".to_string(), "count".to_string()]);
            assert_eq!(fields.entries[0].1.inner, Shape::Entity { target: "TodoOwnerInfo".to_string() });
            assert_eq!(fields.entries[1].1.inner, Shape::Nullable { inner: Box::new(Shape::Int) });
        }
        other => panic!("expected a record, got {:?}", other),
    }
}

#[test]
fn title_names_the_entity() {
    let s = Schema {
        type_: Some(vec![SchemaType::Object]),
        title: Some("Fancy Name".to_string()),
        ..Default::default()
    };
    let r = resolve(&path(&["a", "b"]), &s).unwrap();
    assert_eq!(r.shape, Shape::Entity { target: "Fancy Name".to_string() });
    assert_eq!(keys(&r.entities), vec!["Fancy Name".to_string()]);
}

#[test]
fn pascal_case_of_path() {
    assert_eq!(pascal_case(&path(&["todo", "owner_info"])), "TodoOwnerInfo");
    assert_eq!(pascal_case(&path(&["my-api", "v2 item"])), "MyApiV2Item");
    assert_eq!(pascal_case(&path(&[])), "");
}

#[test]
fn union_of_types_becomes_entity() {
    let s = typed(vec![SchemaType::String, SchemaType::Integer]);
    let r = resolve(&path(&["value"]), &s).unwrap();
    assert_eq!(r.shape, Shape::Entity { target: "Value".to_string() });
    match &r.entities.entries[0].1.inner {
        Entity::Union { fields } => {
            assert_eq!(keys(fields), vec!["string".to_string(), "integer".to_string()]);
            assert_eq!(fields.entries[0].1.inner, Shape::String);
            assert_eq!(fields.entries[1].1.inner, Shape::Int);
        }
        other => panic!("expected a union, got {:?}", other),
    }
}

#[test]
fn array_wraps_items() {
    let s = Schema {
        type_: Some(vec![SchemaType::Array]),
        items: Some(BoolOr::Value(Box::new(typed(vec![SchemaType::String])))),
        ..Default::default()
    };
    let r = resolve(&path(&["tags"]), &s).unwrap();
    assert_eq!(r.shape, Shape::List { inner: Box::new(Shape::String) });
}

#[test]
fn reference_names_entity() {
    let s = Schema { ref_: Some("#/components/schemas/Pet".to_string()), ..Default::default() };
    let r = resolve(&path(&["x"]), &s).unwrap();
    assert_eq!(r.shape, Shape::Entity { target: "Pet".to_string() });
}

#[test]
fn cross_document_reference_is_unsupported() {
    let s = Schema { ref_: Some("other.json#/components/schemas/Pet".to_string()), ..Default::default() };
    assert_eq!(resolve(&path(&["x"]), &s).err(), Some(Error::UnsupportedSchemaShape));
}

#[test]
fn schema_without_type_is_unresolvable() {
    let s = Schema::default();
    assert_eq!(resolve(&path(&["x"]), &s).err(), Some(Error::UnresolvableSchema));
}

#[test]
fn boolean_items_are_unsupported() {
    let s = Schema {
        type_: Some(vec![SchemaType::Array]),
        items: Some(BoolOr::Bool(true)),
        ..Default::default()
    };
    assert_eq!(resolve(&path(&["x"]), &s).err(), Some(Error::UnsupportedSchemaShape));
}

#[test]
fn failure_deep_inside_fails_whole_resolution() {
    let s = Schema {
        type_: Some(vec![SchemaType::Object]),
        properties: Some(props(vec![("ok", typed(vec![SchemaType::String])), ("bad", Schema::default())])),
        ..Default::default()
    };
    assert_eq!(resolve(&path(&["x"]), &s).err(), Some(Error::UnresolvableSchema));
}

#[test]
fn validation_keywords_are_kept_as_metadata() {
    let field = Schema {
        type_: Some(vec![SchemaType::String]),
        min_length: Some(serde_json::Number::from(3)),
        multiple_of: Some(serde_json::Number::from_f64(0.5).unwrap()),
        pattern: Some("^a".to_string()),
        ..Default::default()
    };
    let s = Schema {
        type_: Some(vec![SchemaType::Object]),
        properties: Some(props(vec![("code", field)])),
        ..Default::default()
    };
    let mut acc: Entities = OrderedMap::new();
    let e = resolve_entity(&path(&["Thing"]), &s, &mut acc).unwrap();
    match &e.inner {
        Entity::Record { fields } => {
            let meta = &fields.entries[0].1.metadata;
            assert_eq!(keys(meta), vec!["minLength".to_string(), "pattern".to_string(), "multipleOf".to_string()]);
            assert_eq!(meta.entries[0].1, Literal::Int(3));
            assert_eq!(meta.entries[1].1, Literal::String("^a".to_string()));
            assert_eq!(meta.entries[2].1, Literal::Float(serde_json::Number::from_f64(0.5).unwrap()));
        }
        other => panic!("expected a record, got {:?}", other),
    }
    assert!(acc.entries.is_empty());
}

#[test]
fn components_resolve_in_order() {
    let pet = Schema {
        type_: Some(vec![SchemaType::Object]),
        properties: Some(props(vec![("owner", Schema {
            type_: Some(vec![SchemaType::Object]),
            ..Default::default()
        })])),
        ..Default::default()
    };
    let id = typed(vec![SchemaType::String]);
    let es = resolve_components(&props(vec![("Pet", pet), ("Id", id)])).unwrap();
    assert_eq!(keys(&es), vec!["PetOwner".to_string(), "Pet".to_string(), "Id".to_string()]);
    assert_eq!(es.entries[2].1.inner, Entity::Alias { shape: Shape::String });
}

#[test]
fn insert_keeps_position_of_existing_key() {
    let mut m: OrderedMap<i64> = OrderedMap::new();
    m.insert("a".to_string(), 1);
    m.insert("b".to_string(), 2);
    m.insert("a".to_string(), 3);
    assert_eq!(m.entries, vec![("a".to_string(), 3), ("b".to_string(), 2)]);
    assert_eq!(m.position("b"), Some(1));
    assert!(!m.contains_key("c"));
}

#[test]
fn failed_resolution_leaves_accumulator_untouched() {
    let s = Schema {
        type_: Some(vec![SchemaType::Object]),
        properties: Some(props(vec![
            ("inner", Schema { type_: Some(vec![SchemaType::Object]), ..Default::default() }),
            ("bad", Schema::default()),
        ])),
        ..Default::default()
    };
    let mut acc: Entities = OrderedMap::new();
    acc.insert("Kept".to_string(), Entry::bare(Entity::default()));
    assert_eq!(resolve_shape(&path(&["x"]), &s, &mut acc), Err(Error::UnresolvableSchema));
    assert_eq!(keys(&acc), vec!["Kept".to_string()]);
    assert_eq!(resolve_entity(&path(&["x"]), &s, &mut acc).err(), Some(Error::UnresolvableSchema));
    assert_eq!(keys(&acc), vec!["Kept".to_string()]);
}

#[test]
fn repeated_types_are_resolved_once() {
    let s = typed(vec![SchemaType::String, SchemaType::String, SchemaType::Integer]);
    let r = resolve(&path(&["value"]), &s).unwrap();
    match &r.entities.entries[0].1.inner {
        Entity::Union { fields } => {
            assert_eq!(keys(fields), vec!["string".to_string(), "integer".to_string()]);
        }
        other => panic!("expected a union, got {:?}", other),
    }
    let mut acc: Entities = OrderedMap::new();
    assert_eq!(
        resolve_shape(&path(&["x"]), &typed(vec![SchemaType::String, SchemaType::String]), &mut acc),
        Ok(Shape::String)
    );
}
