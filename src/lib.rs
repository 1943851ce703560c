//! Schema normalisation and code generation: OpenAPI / JSON Schema documents are
//! migrated between dialects, resolved into a flat intermediate representation of
//! named entities, and rendered as source text.
pub mod json;
pub mod ordered_map;
pub mod ir;
pub mod jsonschema;
pub mod text;
pub mod error;
pub mod resolve;
pub mod v3_0;
pub mod v3_1;
pub mod migrate;
pub mod emit;
pub mod openapi;
pub mod lossy;
