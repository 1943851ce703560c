//! The OpenAPI 3.0 document model.
use vstd::prelude::*;
use crate::ordered_map::OrderedMap;

verus! {

#[derive(Debug, PartialEq)]
pub struct OpenAPI {
    pub openapi: String,
    pub info: Info,
    pub servers: Option<Vec<Server>>,
    pub paths: Option<OrderedMap<Referenceable<PathItem>>>,
    pub components: Option<Components>,
    pub security: Option<Vec<SecurityScheme>>,
    pub tags: Option<Vec<Tag>>,
    pub external_docs: Option<ExternalDocumentation>,
}

#[derive(Debug, PartialEq)]
pub struct Info {
    pub title: String,
    pub description: Option<String>,
    pub terms_of_service: Option<String>,
    pub contact: Option<Contact>,
    pub license: Option<License>,
    pub version: String,
}

#[derive(Debug, PartialEq)]
pub struct Contact {
    pub name: Option<String>,
    pub url: Option<String>,
    pub email: Option<String>,
}

#[derive(Debug, PartialEq)]
pub struct License {
    pub name: String,
    pub url: Option<String>,
}

#[derive(Debug, PartialEq)]
pub struct Server {
    pub url: String,
    pub description: Option<String>,
    pub variables: Option<OrderedMap<ServerVariable>>,
}

#[derive(Debug, PartialEq)]
pub struct ServerVariable {
    pub enum_: Option<Vec<String>>,
    pub default: String,
    pub description: Option<String>,
}

#[derive(Debug, PartialEq)]
pub struct Components {
    pub schemas: Option<OrderedMap<Referenceable<Schema>>>,
    pub responses: Option<OrderedMap<Referenceable<Response>>>,
    pub parameters: Option<OrderedMap<Referenceable<Parameter>>>,
    pub examples: Option<OrderedMap<Referenceable<Example>>>,
    pub request_bodies: Option<OrderedMap<Referenceable<RequestBody>>>,
    pub headers: Option<OrderedMap<Referenceable<Header>>>,
    pub security_schemes: Option<OrderedMap<Referenceable<SecurityScheme>>>,
    pub links: Option<OrderedMap<Referenceable<Link>>>,
    pub callbacks: Option<OrderedMap<Referenceable<Callback>>>,
}

#[derive(Debug, PartialEq)]
pub struct PathItem {
    pub summary: Option<String>,
    pub description: Option<String>,
    pub servers: Option<Vec<Server>>,
    pub parameters: Option<Vec<Referenceable<Parameter>>>,
    pub get: Option<Operation>,
    pub put: Option<Operation>,
    pub post: Option<Operation>,
    pub delete: Option<Operation>,
    pub options: Option<Operation>,
    pub head: Option<Operation>,
    pub patch: Option<Operation>,
    pub trace: Option<Operation>,
}

#[derive(Debug, PartialEq)]
pub struct Operation {
    pub tags: Option<Vec<String>>,
    pub summary: Option<String>,
    pub description: Option<String>,
    pub external_docs: Option<ExternalDocumentation>,
    pub operation_id: Option<String>,
    pub parameters: Option<Vec<Referenceable<Parameter>>>,
    pub request_body: Option<Referenceable<RequestBody>>,
    pub responses: Responses,
    pub callbacks: Option<OrderedMap<Referenceable<Callback>>>,
    pub deprecated: Option<bool>,
    pub security: Option<Vec<OrderedMap<Vec<String>>>>,
    pub servers: Option<Vec<Server>>,
}

#[derive(Debug, PartialEq)]
pub struct ExternalDocumentation {
    pub description: Option<String>,
    pub url: String,
}

#[derive(Debug, PartialEq)]
pub struct Parameter {
    pub name: String,
    pub in_: String,
    pub description: Option<String>,
    pub required: Option<bool>,
    pub deprecated: Option<bool>,
    pub allow_empty_value: Option<bool>,
    pub schema: Option<Schema>,
    pub example: Option<serde_json::Value>,
    pub examples: Option<OrderedMap<Referenceable<Example>>>,
    pub style: Option<String>,
    pub explode: Option<bool>,
    pub allow_reserved: Option<bool>,
    pub content: Option<OrderedMap<MediaType>>,
}

#[derive(Debug, PartialEq)]
pub struct RequestBody {
    pub description: Option<String>,
    pub content: OrderedMap<MediaType>,
    pub required: Option<bool>,
}

#[derive(Debug, PartialEq)]
pub struct MediaType {
    pub schema: Option<Referenceable<Schema>>,
    pub example: Option<serde_json::Value>,
    pub examples: Option<OrderedMap<Referenceable<Example>>>,
    pub encoding: Option<OrderedMap<Encoding>>,
}

#[derive(Debug, PartialEq)]
pub struct Encoding {
    pub content_type: Option<String>,
    pub headers: Option<OrderedMap<Referenceable<Header>>>,
    pub style: Option<String>,
    pub explode: Option<bool>,
    pub allow_reserved: Option<bool>,
}

/// Responses by status code, with an optional default.
#[derive(Debug, PartialEq)]
pub struct Responses {
    pub default: Option<Referenceable<Response>>,
    pub items: OrderedMap<Referenceable<Response>>,
}

#[derive(Debug, PartialEq)]
pub struct Response {
    pub description: String,
    pub headers: Option<OrderedMap<Referenceable<Header>>>,
    pub content: Option<OrderedMap<MediaType>>,
    pub links: Option<OrderedMap<Referenceable<Link>>>,
}

/// Path items by expression.
pub type Callback = OrderedMap<Referenceable<PathItem>>;

#[derive(Debug, PartialEq)]
pub struct Example {
    pub summary: Option<String>,
    pub description: Option<String>,
    pub value: Option<serde_json::Value>,
    pub external_value: Option<String>,
}

#[derive(Debug, PartialEq)]
pub struct Link {
    pub operation_ref: Option<String>,
    pub operation_id: Option<String>,
    pub parameters: Option<OrderedMap<serde_json::Value>>,
    pub request_body: Option<serde_json::Value>,
    pub description: Option<String>,
    pub server: Option<Server>,
}

#[derive(Debug, PartialEq)]
pub struct Header {
    pub description: Option<String>,
    pub required: Option<bool>,
    pub deprecated: Option<bool>,
    pub allow_empty_value: Option<bool>,
    pub style: Option<String>,
    pub explode: Option<bool>,
    pub allow_reserved: Option<bool>,
    pub schema: Option<Schema>,
    pub example: Option<serde_json::Value>,
    pub examples: Option<OrderedMap<Referenceable<Example>>>,
    pub content: Option<OrderedMap<MediaType>>,
}

#[derive(Debug, PartialEq)]
pub struct Tag {
    pub name: String,
    pub description: Option<String>,
    pub external_docs: Option<ExternalDocumentation>,
}

/// A pointer (`$ref`) to a component defined elsewhere.
#[derive(Debug, PartialEq)]
pub struct Reference {
    pub path: String,
}

/// The schema object of OpenAPI 3.0: one optional type, `nullable` as a flag, and
/// exclusive bounds as flags beside `maximum` and `minimum`.
#[derive(Debug, PartialEq, Default)]
pub struct Schema {
    pub title: Option<String>,
    pub multiple_of: Option<serde_json::Number>,
    pub maximum: Option<serde_json::Number>,
    pub exclusive_maximum: Option<bool>,
    pub minimum: Option<serde_json::Number>,
    pub exclusive_minimum: Option<bool>,
    pub max_length: Option<serde_json::Number>,
    pub min_length: Option<serde_json::Number>,
    pub pattern: Option<String>,
    pub max_items: Option<serde_json::Number>,
    pub min_items: Option<serde_json::Number>,
    pub unique_items: Option<bool>,
    pub max_properties: Option<serde_json::Number>,
    pub min_properties: Option<serde_json::Number>,
    pub required: Option<Vec<String>>,
    pub enum_: Option<Vec<serde_json::Value>>,
    pub type_: Option<SchemaType>,
    pub not: Option<Box<Referenceable<Schema>>>,
    pub all_of: Option<Vec<Referenceable<Schema>>>,
    pub one_of: Option<Vec<Referenceable<Schema>>>,
    pub any_of: Option<Vec<Referenceable<Schema>>>,
    pub items: Option<Box<Referenceable<Schema>>>,
    pub properties: Option<OrderedMap<Referenceable<Schema>>>,
    pub additional_properties: Option<BoolOr<Box<Schema>>>,
    pub description: Option<String>,
    pub format: Option<String>,
    pub default: Option<serde_json::Value>,
    pub nullable: Option<bool>,
    pub discriminator: Option<Discriminator>,
    pub read_only: Option<bool>,
    pub write_only: Option<bool>,
    pub example: Option<serde_json::Value>,
    pub external_docs: Option<ExternalDocumentation>,
    pub deprecated: Option<bool>,
    pub xml: Option<XML>,
}

#[derive(Debug, Clone, Copy, PartialEq, Eq, Structural)]
pub enum SchemaType {
    Array,
    Boolean,
    Integer,
    Number,
    Object,
    String,
}

#[derive(Debug, PartialEq)]
pub struct Discriminator {
    pub property_name: String,
    pub mapping: Option<OrderedMap<String>>,
}

#[derive(Debug, PartialEq)]
pub struct XML {
    pub name: Option<String>,
    pub namespace: Option<String>,
    pub prefix: Option<String>,
    pub attribute: Option<bool>,
    pub wrapped: Option<bool>,
}

#[derive(Debug, PartialEq)]
pub struct SecurityScheme {
    pub type_: String,
    pub description: Option<String>,
    pub name: Option<String>,
    pub in_: Option<String>,
    pub scheme: Option<String>,
    pub bearer_format: Option<String>,
    pub flows: Option<OAuthFlows>,
    pub open_id_connect_url: Option<String>,
}

#[derive(Debug, PartialEq)]
pub struct OAuthFlows {
    pub implicit: Option<OAuthFlow>,
    pub password: Option<OAuthFlow>,
    pub client_credentials: Option<OAuthFlow>,
    pub authorization_code: Option<OAuthFlow>,
}

#[derive(Debug, PartialEq)]
pub struct OAuthFlow {
    pub authorization_url: Option<String>,
    pub token_url: Option<String>,
    pub refresh_url: Option<String>,
    pub scopes: OrderedMap<String>,
}

/// Either a boolean schema or a value.
#[derive(Debug, PartialEq)]
pub enum BoolOr<T> {
    Bool(bool),
    Value(T),
}

/// Either a reference to a component or the component itself.
#[derive(Debug, PartialEq)]
pub enum Referenceable<T> {
    Reference(Reference),
    Value(T),
}

impl<T> Referenceable<T> {
    /// The reference, if this is one.
    pub fn reference(self) -> (r: Option<Reference>)
        ensures
            match self {
                Referenceable::Reference(x) => r == Some(x),
                Referenceable::Value(_) => r is None,
            },
    {
        match self {
            Referenceable::Reference(reference) => Some(reference),
            Referenceable::Value(_) => None,
        }
    }

    /// The value, if this is one.
    pub fn value(self) -> (r: Option<T>)
        ensures
            match self {
                Referenceable::Reference(_) => r is None,
                Referenceable::Value(v) => r == Some(v),
            },
    {
        match self {
            Referenceable::Reference(_) => None,
            Referenceable::Value(value) => Some(value),
        }
    }

    /// Applies `op` to the value; a reference stays as it is.
    pub fn map<U, F: FnOnce(T) -> U>(self, op: F) -> (r: Referenceable<U>)
        requires
            self matches Referenceable::Value(v) ==> op.requires((v,)),
        ensures
            match self {
                Referenceable::Reference(x) => r == Referenceable::<U>::Reference(x),
                Referenceable::Value(v) => r matches Referenceable::Value(u) && op.ensures((v,), u),
            },
    {
        match self {
            Referenceable::Reference(r) => Referenceable::Reference(r),
            Referenceable::Value(v) => Referenceable::Value(op(v)),
        }
    }
}

} // verus!
