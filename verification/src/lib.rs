//! A verified compiler from declarative UI component schemas to ordered
//! element-construction procedures.
//!
//! A component is described as plain data: a named list of properties, each
//! with a declared type shape and optional metadata annotations, plus an
//! optional schema-level annotation choosing the element tag. The compiler
//! parses the metadata, classifies every property into a role, resolves the
//! tag plan, and emits a single construction procedure whose steps follow a
//! fixed phase order.

pub mod classify;
pub mod compile;
pub mod component;
pub mod emit;
pub mod error;
pub mod laws;
pub mod node_ref_attr;
pub mod parse;
pub mod schema;
pub mod tags;
pub mod text;
