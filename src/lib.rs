//! Generation of dry-validation `Params` schemas from the query parameters
//! of an OpenAPI operation: the operation is built into a schema tree, the
//! tree is lowered into statements, and the statements are rendered as text.
//! Unsupported constructs give diagnostics and never stop generation.
pub mod ast;
pub mod ast_builder;
pub mod codegen;
pub mod ir;
pub mod laws;
pub mod openapi;
pub mod pipeline;
pub mod text;
