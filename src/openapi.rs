//! The parts of an OpenAPI operation that schema generation reads, held as
//! plain values: operation id, parameters, and their schemas.
use vstd::prelude::*;

verus! {

/// A schema given inline, or by a `$ref` indirection.
#[derive(Debug, PartialEq)]
pub enum SchemaRef {
    Item(SchemaKind),
    Reference(String),
}

/// The kind of an inline schema.
#[derive(Debug, PartialEq)]
pub enum SchemaKind {
    Type(TypeDesc),
    OneOf,
    AllOf,
    AnyOf,
    Not,
    /// A schema without a `type`.
    Any,
}

/// A typed schema with the constraints that generation reads.
#[derive(Debug, PartialEq)]
pub enum TypeDesc {
    String { min_length: Option<usize>, max_length: Option<usize> },
    Number,
    Integer { minimum: Option<i64>, maximum: Option<i64> },
    Object,
    Array { items: Option<Box<SchemaRef>>, min_items: Option<usize>, max_items: Option<usize> },
    Boolean,
}

/// How a parameter describes its value.
#[derive(Debug, PartialEq)]
pub enum ParameterFormat {
    Schema(SchemaRef),
    /// A `content` map in place of a schema.
    Content,
}

/// What every parameter has, whatever its location.
#[derive(Debug, PartialEq)]
pub struct ParameterData {
    pub name: String,
    pub required: bool,
    pub format: ParameterFormat,
}

/// A parameter, by its location (`in`).
#[derive(Debug, PartialEq)]
pub enum Parameter {
    Query(ParameterData),
    Header(ParameterData),
    Path(ParameterData),
    Cookie(ParameterData),
}

/// A parameter given inline, or by a `$ref` indirection.
#[derive(Debug, PartialEq)]
pub enum ParameterRef {
    Item(Parameter),
    Reference(String),
}

/// One operation of one path.
#[derive(Debug, PartialEq)]
pub struct Operation {
    pub operation_id: Option<String>,
    pub parameters: Vec<ParameterRef>,
}

} // verus!
