//! A small schema compiler for row mapping: from a declarative description of
//! a target structure (field names, declared types, per-field directives) it
//! builds the plan by which a single tabular database row is decoded into an
//! instance of that structure.
//!
//! The pieces, leaves first: `types` models type expressions structurally;
//! `schema` holds the raw schema and the resolved per-field specification;
//! `compile` extracts and validates fields, synthesizes the capability
//! constraints, and assembles the generated mapper; `prepass` is the optional
//! structure-wide optional-wrapping rewrite; `runtime` interprets a compiled
//! mapper against a row and a capability registry.

pub mod compile;
pub mod prepass;
pub mod runtime;
pub mod schema;
pub mod types;
