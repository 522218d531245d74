//! Compile-time code generation for record types with named fields.
//!
//! Given the declaration of a record type — a name, a list of generic
//! parameters, and an ordered sequence of field descriptors — this library
//! synthesizes two kinds of companion declarations:
//!
//! * a staged-construction (builder) companion type that accumulates field
//!   values incrementally and validates completeness before producing the
//!   final record, and
//! * a diagnostic-formatting implementation that renders a record's fields
//!   as text, honoring per-field format overrides and inferring which
//!   generic parameters actually need a formatting-capability bound.
//!
//! The surrounding host (the structural parser that produces field
//! descriptors from source text, and the renderer that serializes the
//! synthesized declarations back into emittable output) is outside this
//! library; it exchanges plain data with the functions here.

pub mod ast;
pub mod bounds;
pub mod builder;
pub mod companion;
pub mod debug;
pub mod directive;
pub mod shape;

pub use ast::TypeExpr;
