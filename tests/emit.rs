use yaspec::emit::{render_declaration, tab, ActionTemplate, DescriptionTemplate, RootTemplate, ShapeTemplate};
use yaspec::error::Error;
use yaspec::ir::{Action, Entry, Literal, Schema as Entity, Service, Shape, YASpec};
use yaspec::jsonschema::{Schema, SchemaType};
use yaspec::ordered_map::OrderedMap;
use yaspec::resolve::{resolve_shape, Entities};

fn spec(entities: Entities) -> YASpec {
    YASpec {
        yaspec: "0.1.0".to_string(),
        name: "Todo".to_string(),
        description: None,
        version: "1.0".to_string(),
        entities,
        services: OrderedMap::new(),
    }
}

fn alias(shape: Shape) -> Entry<Entity> {
    Entry::bare(Entity::Alias { shape })
}

#[test]
fn tab_indents_each_line() {
    assert_eq!(tab("a\nb"), "  a\n  b");
    assert_eq!(tab("a\n"), "  a");
    assert_eq!(tab("a\n\nb"), "  a\n  \n  b");
    assert_eq!(tab(""), "");
}

#[test]
fn tab_drops_carriage_return_of_crlf() {
    assert_eq!(tab("a\r\nb"), "  a\n  b");
    assert_eq!(tab("a\r\n"), "  a");
    assert_eq!(tab("\r\n"), "  ");
    assert_eq!(tab("a\rb"), "  a\rb");
    assert_eq!(tab("a\r\r\n"), "  a\r");
    assert_eq!(tab(&tab("a\r\nb")), "    a\n    b");
}

#[test]
fn shapes_render_as_type_expressions() {
    let s = Shape::Dict {
        key: Box::new(Shape::String),
        value: Box::new(Shape::List { inner: Box::new(Shape::Nullable { inner: Box::new(Shape::Float) }) }),
    };
    assert_eq!(ShapeTemplate(&s).render(), "Record<string, Array<number | null>>");
    assert_eq!(ShapeTemplate(&Shape::Entity { target: "Pet".to_string() }).render(), "Pet");
    assert_eq!(ShapeTemplate(&Shape::Bool).render(), "boolean");
}

#[test]
fn description_comment_only_when_present() {
    assert_eq!(DescriptionTemplate(&None).render(), "");
    assert_eq!(DescriptionTemplate(&Some("hello".to_string())).render(), "/**\n * hello\n */\n");
}

#[test]
fn metadata_becomes_doc_tags() {
    let mut metadata = OrderedMap::new();
    metadata.insert("minLength".to_string(), Literal::Int(3));
    metadata.insert("multipleOf".to_string(), Literal::Float(serde_json::Number::from_f64(0.5).unwrap()));
    metadata.insert(
        "tags".to_string(),
        Literal::Array(vec![Literal::String("a".to_string()), Literal::Bool(false), Literal::Int(-7)]),
    );
    let e = Entry { description: Some("A code".to_string()), metadata, inner: Entity::Alias { shape: Shape::String } };
    assert_eq!(
        render_declaration("Code", &e),
        "/**\n * A code\n * @minLength 3\n * @multipleOf 0.5\n * @tags [\"a\", false, -7]\n */\nexport type Code = string;\n"
    );
}

#[test]
fn entities_are_declared_in_insertion_order() {
    let mut es: Entities = OrderedMap::new();
    es.insert("C".to_string(), alias(Shape::String));
    es.insert("A".to_string(), alias(Shape::Int));
    es.insert("B".to_string(), alias(Shape::Bool));
    let out = RootTemplate(&spec(es)).render().unwrap();
    assert_eq!(
        out,
        "// Todo 1.0\n\nexport type C = string;\n\nexport type A = number;\n\nexport type B = boolean;\n"
    );
}

#[test]
fn union_and_enum_declarations() {
    let mut fields = OrderedMap::new();
    fields.insert("string".to_string(), Entry::bare(Shape::String));
    fields.insert("integer".to_string(), Entry::bare(Shape::Int));
    assert_eq!(
        render_declaration("Value", &Entry::bare(Entity::Union { fields })),
        "export type Value =\n  | string\n  | number;\n"
    );
    let mut members = OrderedMap::new();
    members.insert("Open".to_string(), Entry::bare(()));
    members.insert("Done".to_string(), Entry::bare(()));
    assert_eq!(
        render_declaration("State", &Entry::bare(Entity::Enum { fields: members })),
        "export enum State {\n  Open,\n  Done,\n}\n"
    );
}

#[test]
fn dangling_reference_fails_with_entity_name() {
    let mut es: Entities = OrderedMap::new();
    es.insert("Good".to_string(), alias(Shape::String));
    es.insert("Bad".to_string(), alias(Shape::Entity { target: "Missing".to_string() }));
    assert_eq!(
        RootTemplate(&spec(es)).render(),
        Err(Error::EmissionFormatError { name: "Bad".to_string() })
    );
}

fn get_action() -> Entry<Action> {
    let mut inputs = OrderedMap::new();
    inputs.insert("id".to_string(), Entry::bare(Shape::String));
    let mut outputs = OrderedMap::new();
    outputs.insert("todo".to_string(), Entry::bare(Some(Shape::Entity { target: "Todo".to_string() })));
    outputs.insert("none".to_string(), Entry::bare(None));
    Entry::bare(Action { inputs, outputs })
}

#[test]
fn actions_render_as_methods() {
    let a = get_action();
    assert_eq!(ActionTemplate("get", &a).render(), "get(id: string): Promise<{ todo: Todo; none: void; }>;\n");
    let empty = Entry::bare(Action { inputs: OrderedMap::new(), outputs: OrderedMap::new() });
    assert_eq!(ActionTemplate("ping", &empty).render(), "ping(): Promise<void>;\n");
}

#[test]
fn dangling_reference_in_action_fails_with_action_name() {
    let mut actions = OrderedMap::new();
    actions.insert("get".to_string(), get_action());
    let mut y = spec(OrderedMap::new());
    y.services.insert("Todos".to_string(), Entry::bare(Service { actions }));
    assert_eq!(RootTemplate(&y).render(), Err(Error::EmissionFormatError { name: "get".to_string() }));
}

#[test]
fn services_render_as_interfaces() {
    let mut actions = OrderedMap::new();
    actions.insert("get".to_string(), get_action());
    let mut es: Entities = OrderedMap::new();
    es.insert("Todo".to_string(), alias(Shape::String));
    let mut y = spec(es);
    y.services.insert("Todos".to_string(), Entry::bare(Service { actions }));
    assert_eq!(
        RootTemplate(&y).render().unwrap(),
        "// Todo 1.0\n\nexport type Todo = string;\n\nexport interface Todos {\n  get(id: string): Promise<{ todo: Todo; none: void; }>;\n}\n"
    );
}

#[test]
fn todo_end_to_end() {
    let mut properties = OrderedMap::new();
    properties.insert("id".to_string(), Schema { type_: Some(vec![SchemaType::Integer]), ..Default::default() });
    properties.insert("name".to_string(), Schema { type_: Some(vec![SchemaType::String]), ..Default::default() });
    let todo = Schema {
        type_: Some(vec![SchemaType::Object]),
        properties: Some(properties),
        required: Some(vec!["id".to_string()]),
        ..Default::default()
    };
    let mut acc: Entities = OrderedMap::new();
    let shape = resolve_shape(&vec!["Todo".to_string()], &todo, &mut acc).unwrap();
    assert_eq!(shape, Shape::Entity { target: "Todo".to_string() });
    assert_eq!(acc.entries.len(), 1);
    assert_eq!(acc.entries[0].0, "Todo");
    match &acc.entries[0].1.inner {
        Entity::Record { fields } => {
            assert_eq!(fields.entries[0].0, "id");
            assert_eq!(fields.entries[0].1.inner, Shape::Int);
            assert_eq!(fields.entries[1].0, "name");
            assert_eq!(fields.entries[1].1.inner, Shape::Nullable { inner: Box::new(Shape::String) });
        }
        other => panic!("expected a record, got {:?}", other),
    }
    let out = RootTemplate(&spec(acc)).render().unwrap();
    assert_eq!(
        out,
        "// Todo 1.0\n\nexport interface Todo {\n  id: number;\n  name: string | null;\n}\n"
    );
    assert!(out.find("id:").unwrap() < out.find("name:").unwrap());
}
