//! The intermediate representation: named entities built from structural shapes,
//! and services made of actions, each decorated by an [`Entry`].
use vstd::prelude::*;
use crate::ordered_map::OrderedMap;

verus! {

/// A constant value, as used for metadata and defaults.
#[derive(Debug, PartialEq)]
pub enum Literal {
    Bool(bool),
    Int(i64),
    /// A number that is not an integer, kept as the JSON number that spelled it.
    Float(serde_json::Number),
    String(String),
    Array(Vec<Literal>),
    Object(OrderedMap<Literal>),
}

/// A payload with an optional description and ordered metadata.
#[derive(Debug, PartialEq)]
pub struct Entry<T> {
    pub description: Option<String>,
    pub metadata: OrderedMap<Literal>,
    pub inner: T,
}

impl<T> Entry<T> {
    /// An entry with no description and no metadata.
    pub fn bare(inner: T) -> (r: Self)
        ensures
            r.description is None,
            r.metadata.entries@.len() == 0,
            r.inner == inner,
    {
        Entry { description: None, metadata: OrderedMap::new(), inner }
    }
}

/// The root document of the intermediate representation.
#[derive(Debug, PartialEq)]
pub struct YASpec {
    /// Version of the representation format itself.
    pub yaspec: String,
    pub name: String,
    pub description: Option<String>,
    pub version: String,
    pub entities: OrderedMap<Entry<Schema>>,
    pub services: OrderedMap<Entry<Service>>,
}

/// A nominal definition.
#[derive(Debug, PartialEq)]
pub enum Schema {
    Record { fields: OrderedMap<Entry<Shape>> },
    Union { fields: OrderedMap<Entry<Shape>> },
    Enum { fields: OrderedMap<Entry<()>> },
    Alias { shape: Shape },
}

impl Default for Schema {
    /// An empty record.
    fn default() -> (r: Self)
        ensures
            r matches Schema::Record { fields } && fields.entries@.len() == 0,
    {
        Schema::Record { fields: OrderedMap::new() }
    }
}

/// A structural type.
#[derive(Debug, PartialEq, Eq)]
pub enum Shape {
    Bool,
    Int,
    Float,
    String,
    List { inner: Box<Shape> },
    /// A map from `key` to `value`.
    Dict { key: Box<Shape>, value: Box<Shape> },
    Nullable { inner: Box<Shape> },
    Entity { target: String },
}

/// The mathematical form of a [`Shape`]: entity names as character sequences.
pub enum ShapeModel {
    Bool,
    Int,
    Float,
    String,
    List(Box<ShapeModel>),
    Dict(Box<ShapeModel>, Box<ShapeModel>),
    Nullable(Box<ShapeModel>),
    Entity(Seq<char>),
}

impl Shape {
    pub open spec fn model(&self) -> ShapeModel
        decreases self,
    {
        match self {
            Shape::Bool => ShapeModel::Bool,
            Shape::Int => ShapeModel::Int,
            Shape::Float => ShapeModel::Float,
            Shape::String => ShapeModel::String,
            Shape::List { inner } => ShapeModel::List(Box::new(inner.model())),
            Shape::Dict { key, value } => ShapeModel::Dict(Box::new(key.model()), Box::new(value.model())),
            Shape::Nullable { inner } => ShapeModel::Nullable(Box::new(inner.model())),
            Shape::Entity { target } => ShapeModel::Entity(target@),
        }
    }
}

/// The name and shape of each field, in order.
pub open spec fn fields_model(fields: OrderedMap<Entry<Shape>>) -> Seq<(Seq<char>, ShapeModel)> {
    fields.entries@.map_values(|e: (String, Entry<Shape>)| (e.0@, e.1.inner.model()))
}

/// A named group of actions.
#[derive(Debug, PartialEq)]
pub struct Service {
    pub actions: OrderedMap<Entry<Action>>,
}

/// An operation: named inputs, and named outputs where an output of `None` returns
/// no value.
#[derive(Debug, PartialEq)]
pub struct Action {
    pub inputs: OrderedMap<Entry<Shape>>,
    pub outputs: OrderedMap<Entry<Option<Shape>>>,
}

} // verus!
