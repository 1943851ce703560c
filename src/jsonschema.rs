//! JSON Schema, draft 2020-12: the schema model of OpenAPI 3.1 and the input of the
//! resolver.
use vstd::prelude::*;
use crate::ordered_map::OrderedMap;

verus! {

/// A schema object. Every keyword is optional.
#[derive(Debug, PartialEq, Default)]
pub struct Schema {
    // basics
    pub type_: Option<Vec<SchemaType>>,
    pub format: Option<String>,
    pub ref_: Option<String>,
    // dialect
    pub schema: Option<String>,
    pub id: Option<String>,
    pub vocabulary: Option<OrderedMap<serde_json::Value>>,
    pub dynamic_anchor: Option<String>,
    pub anchor: Option<String>,
    pub defs: Option<OrderedMap<Schema>>,
    // annotations
    pub title: Option<String>,
    pub description: Option<String>,
    pub default: Option<serde_json::Value>,
    pub examples: Option<Vec<serde_json::Value>>,
    pub read_only: Option<bool>,
    pub write_only: Option<bool>,
    pub deprecated: Option<bool>,
    pub comment: Option<String>,
    // enumerated and constant values
    pub enum_: Option<Vec<serde_json::Value>>,
    pub const_: Option<serde_json::Value>,
    // media
    pub content_media_type: Option<String>,
    pub content_encoding: Option<String>,
    pub content_schema: Option<Box<Schema>>,
    // composition
    pub all_of: Option<Vec<Schema>>,
    pub any_of: Option<Vec<Schema>>,
    pub one_of: Option<Vec<Schema>>,
    pub not: Option<Box<Schema>>,
    // conditionals
    pub dependent_required: Option<OrderedMap<Vec<String>>>,
    pub dependent_schemas: Option<OrderedMap<Schema>>,
    pub if_: Option<Box<Schema>>,
    pub then_: Option<Box<Schema>>,
    pub else_: Option<Box<Schema>>,
    // strings
    pub min_length: Option<serde_json::Number>,
    pub max_length: Option<serde_json::Number>,
    pub pattern: Option<String>,
    // numbers
    pub multiple_of: Option<serde_json::Number>,
    pub maximum: Option<serde_json::Number>,
    pub exclusive_maximum: Option<serde_json::Number>,
    pub minimum: Option<serde_json::Number>,
    pub exclusive_minimum: Option<serde_json::Number>,
    // objects
    pub properties: Option<OrderedMap<Schema>>,
    pub pattern_properties: Option<OrderedMap<Schema>>,
    pub additional_properties: Option<BoolOr<Box<Schema>>>,
    pub unevaluated_properties: Option<BoolOr<Box<Schema>>>,
    pub required: Option<Vec<String>>,
    pub property_names: Option<Box<Schema>>,
    pub max_properties: Option<serde_json::Number>,
    pub min_properties: Option<serde_json::Number>,
    // arrays
    pub items: Option<BoolOr<Box<Schema>>>,
    pub prefix_items: Option<Vec<Schema>>,
    pub unevaluated_items: Option<BoolOr<Box<Schema>>>,
    pub contains: Option<Box<Schema>>,
    pub min_contains: Option<serde_json::Number>,
    pub max_contains: Option<serde_json::Number>,
    pub max_items: Option<serde_json::Number>,
    pub min_items: Option<serde_json::Number>,
    pub unique_items: Option<bool>,
}

/// Either a boolean schema (`true` accepts everything, `false` nothing) or a value.
#[derive(Debug, PartialEq)]
pub enum BoolOr<T> {
    Bool(bool),
    Value(T),
}

/// The primitive types a schema can name.
#[derive(Debug, Clone, Copy, PartialEq, Eq, Structural)]
pub enum SchemaType {
    String,
    Number,
    Integer,
    Boolean,
    Object,
    Array,
    Null,
    Any,
}

/// The name under which a type is written in a document.
pub open spec fn keyword_of(t: SchemaType) -> Seq<char> {
    match t {
        SchemaType::String => "string"@,
        SchemaType::Number => "number"@,
        SchemaType::Integer => "integer"@,
        SchemaType::Boolean => "boolean"@,
        SchemaType::Object => "object"@,
        SchemaType::Array => "array"@,
        SchemaType::Null => "null"@,
        SchemaType::Any => "any"@,
    }
}

impl SchemaType {
    /// The name under which the type is written in a document.
    pub fn name(&self) -> (r: String)
        ensures
            r@ == keyword_of(*self),
    {
        match self {
            SchemaType::String => String::from_str("string"),
            SchemaType::Number => String::from_str("number"),
            SchemaType::Integer => String::from_str("integer"),
            SchemaType::Boolean => String::from_str("boolean"),
            SchemaType::Object => String::from_str("object"),
            SchemaType::Array => String::from_str("array"),
            SchemaType::Null => String::from_str("null"),
            SchemaType::Any => String::from_str("any"),
        }
    }
}

/// The formats a string schema may declare.
#[derive(Debug, Clone, Copy, PartialEq, Eq, Structural)]
pub enum StringFormat {
    DateTime,
    Date,
    Time,
    Duration,
    Email,
    IdnEmail,
    Hostname,
    IdnHostname,
    Ipv4,
    Ipv6,
    Uuid,
    Uri,
    UriReference,
    Iri,
    IriReference,
    UriTemplate,
    JsonPointer,
    RelativeJsonPointer,
    Regex,
}

} // verus!
