//! The ways in which resolution, migration and emission fail.
use vstd::prelude::*;

verus! {

/// Every failure is terminal for the unit at hand: resolution and migration hand
/// back no partial result.
#[derive(Debug, PartialEq)]
pub enum Error {
    /// A schema with neither a type nor a reference, or with a type from which no
    /// shape follows.
    UnresolvableSchema,
    /// A boolean schema where a concrete schema is needed, or a reference into
    /// another document.
    UnsupportedSchemaShape,
    /// The document does not belong to the dialect the migration starts from.
    PreconditionViolation,
    /// A fragment could not be rendered; `name` is the entity or action at fault.
    EmissionFormatError { name: String },
}

} // verus!
