//! The OpenAPI 3.1 document model. Its schema object is JSON Schema 2020-12.
use vstd::prelude::*;
use crate::ordered_map::OrderedMap;
pub use crate::jsonschema::{BoolOr, Schema, SchemaType};

verus! {

#[derive(Debug, PartialEq)]
pub struct OpenAPI {
    pub openapi: String,
    pub info: Info,
    pub json_schema_dialect: Option<String>,
    pub servers: Option<Vec<Server>>,
    pub paths: OrderedMap<Referenceable<PathItem>>,
    pub webhooks: Option<OrderedMap<Referenceable<PathItem>>>,
    pub components: Option<Components>,
    pub security: Option<Vec<SecurityRequirement>>,
    pub tags: Option<Vec<Tag>>,
    pub external_docs: Option<ExternalDocumentation>,
}

#[derive(Debug, PartialEq)]
pub struct Info {
    pub title: String,
    pub summary: Option<String>,
    pub description: Option<String>,
    pub terms_of_service: Option<String>,
    pub contact: Option<Contact>,
    pub license: Option<License>,
    pub version: String,
}

#[derive(Debug, PartialEq)]
pub struct Contact {
    pub name: Option<String>,
    pub url: Option<String>,
    pub email: Option<String>,
}

#[derive(Debug, PartialEq)]
pub struct License {
    pub name: String,
    pub identifier: Option<String>,
    pub url: Option<String>,
}

#[derive(Debug, PartialEq)]
pub struct Server {
    pub url: String,
    pub description: Option<String>,
    pub variables: Option<OrderedMap<ServerVariable>>,
}

#[derive(Debug, PartialEq)]
pub struct ServerVariable {
    pub enum_: Option<Vec<String>>,
    pub default: String,
    pub description: Option<String>,
}

#[derive(Debug, PartialEq)]
pub struct Components {
    pub schemas: Option<OrderedMap<Schema>>,
    pub responses: Option<OrderedMap<Referenceable<Response>>>,
    pub parameters: Option<OrderedMap<Referenceable<Parameter>>>,
    pub examples: Option<OrderedMap<Referenceable<Example>>>,
    pub request_bodies: Option<OrderedMap<Referenceable<RequestBody>>>,
    pub headers: Option<OrderedMap<Referenceable<Header>>>,
    pub security_schemes: Option<OrderedMap<Referenceable<SecurityScheme>>>,
    pub links: Option<OrderedMap<Referenceable<Link>>>,
    pub callbacks: Option<OrderedMap<Referenceable<Callback>>>,
    pub path_items: Option<OrderedMap<Referenceable<PathItem>>>,
}

#[derive(Debug, PartialEq)]
pub struct PathItem {
    pub summary: Option<String>,
    pub description: Option<String>,
    pub servers: Option<Vec<Server>>,
    pub parameters: Option<Vec<Referenceable<Parameter>>>,
    pub get: Option<Operation>,
    pub put: Option<Operation>,
    pub post: Option<Operation>,
    pub delete: Option<Operation>,
    pub options: Option<Operation>,
    pub head: Option<Operation>,
    pub patch: Option<Operation>,
    pub trace: Option<Operation>,
}

#[derive(Debug, PartialEq)]
pub struct Operation {
    pub tags: Option<Vec<String>>,
    pub summary: Option<String>,
    pub description: Option<String>,
    pub external_docs: Option<ExternalDocumentation>,
    pub operation_id: Option<String>,
    pub parameters: Option<Vec<Referenceable<Parameter>>>,
    pub request_body: Option<Referenceable<RequestBody>>,
    pub responses: Responses,
    pub callbacks: Option<OrderedMap<Referenceable<Callback>>>,
    pub deprecated: Option<bool>,
    pub security: Option<Vec<SecurityRequirement>>,
    pub servers: Option<Vec<Server>>,
}

#[derive(Debug, PartialEq)]
pub struct ExternalDocumentation {
    pub description: Option<String>,
    pub url: String,
}

#[derive(Debug, PartialEq)]
pub struct Parameter {
    pub name: String,
    pub in_: String,
    pub description: Option<String>,
    pub required: Option<bool>,
    pub deprecated: Option<bool>,
    pub allow_empty_value: Option<bool>,
    pub schema: Option<Schema>,
    pub example: Option<serde_json::Value>,
    pub examples: Option<OrderedMap<Referenceable<Example>>>,
    pub style: Option<String>,
    pub explode: Option<bool>,
    pub allow_reserved: Option<bool>,
    pub content: Option<OrderedMap<MediaType>>,
}

#[derive(Debug, PartialEq)]
pub struct RequestBody {
    pub description: Option<String>,
    pub content: OrderedMap<MediaType>,
    pub required: Option<bool>,
}

#[derive(Debug, PartialEq)]
pub struct MediaType {
    pub schema: Option<Referenceable<Schema>>,
    pub example: Option<serde_json::Value>,
    pub examples: Option<OrderedMap<Referenceable<Example>>>,
    pub encoding: Option<OrderedMap<Encoding>>,
}

#[derive(Debug, PartialEq)]
pub struct Encoding {
    pub content_type: Option<String>,
    pub headers: Option<OrderedMap<Referenceable<Header>>>,
    pub style: Option<String>,
    pub explode: Option<bool>,
    pub allow_reserved: Option<bool>,
}

/// Responses by status code, with an optional default.
#[derive(Debug, PartialEq)]
pub struct Responses {
    pub default: Option<Referenceable<Response>>,
    pub items: OrderedMap<Referenceable<Response>>,
}

#[derive(Debug, PartialEq)]
pub struct Response {
    pub description: String,
    pub headers: Option<OrderedMap<Referenceable<Header>>>,
    pub content: Option<OrderedMap<MediaType>>,
    pub links: Option<OrderedMap<Referenceable<Link>>>,
}

/// Path items by expression.
pub type Callback = OrderedMap<Referenceable<PathItem>>;

#[derive(Debug, PartialEq)]
pub struct Example {
    pub summary: Option<String>,
    pub description: Option<String>,
    pub value: Option<serde_json::Value>,
    pub external_value: Option<String>,
}

#[derive(Debug, PartialEq)]
pub struct Link {
    pub operation_ref: Option<String>,
    pub operation_id: Option<String>,
    pub parameters: Option<OrderedMap<serde_json::Value>>,
    pub request_body: Option<serde_json::Value>,
    pub description: Option<String>,
    pub server: Option<Server>,
}

#[derive(Debug, PartialEq)]
pub struct Header {
    pub description: Option<String>,
    pub required: Option<bool>,
    pub deprecated: Option<bool>,
    pub allow_empty_value: Option<bool>,
    pub style: Option<String>,
    pub explode: Option<bool>,
    pub allow_reserved: Option<bool>,
    pub schema: Option<Schema>,
    pub example: Option<serde_json::Value>,
    pub examples: Option<OrderedMap<Referenceable<Example>>>,
    pub content: Option<OrderedMap<MediaType>>,
}

#[derive(Debug, PartialEq)]
pub struct Tag {
    pub name: String,
    pub description: Option<String>,
    pub external_docs: Option<ExternalDocumentation>,
}

/// A pointer (`$ref`) to a component defined elsewhere.
#[derive(Debug, PartialEq)]
pub struct Reference {
    pub path: String,
    pub summary: Option<String>,
    pub description: Option<String>,
}

#[derive(Debug, PartialEq)]
pub struct SecurityScheme {
    pub type_: String,
    pub description: Option<String>,
    pub name: Option<String>,
    pub in_: Option<String>,
    pub scheme: Option<String>,
    pub bearer_format: Option<String>,
    pub flows: Option<OAuthFlows>,
    pub open_id_connect_url: Option<String>,
}

#[derive(Debug, PartialEq)]
pub struct OAuthFlows {
    pub implicit: Option<OAuthFlow>,
    pub password: Option<OAuthFlow>,
    pub client_credentials: Option<OAuthFlow>,
    pub authorization_code: Option<OAuthFlow>,
}

#[derive(Debug, PartialEq)]
pub struct OAuthFlow {
    pub authorization_url: Option<String>,
    pub token_url: Option<String>,
    pub refresh_url: Option<String>,
    pub scopes: OrderedMap<String>,
}

/// Either a reference to a component or the component itself.
#[derive(Debug, PartialEq)]
pub enum Referenceable<T> {
    Reference(Reference),
    Value(T),
}

/// Scopes required by each named security scheme.
pub type SecurityRequirement = OrderedMap<Vec<String>>;

} // verus!
