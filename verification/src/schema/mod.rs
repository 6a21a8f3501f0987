//! The schema graph: its node types, the catalog of built-in composite types,
//! and the passes that generate, emit and instantiate schemas.

pub mod model;
pub mod types;
pub mod nodes;
pub mod definition;
pub mod builder;
pub mod variant;
pub mod catalog;
pub mod json_conversion;
pub mod closure;
pub mod references;
pub mod document;
pub mod wellformed;
pub mod conversion;
pub mod instantiate;
pub mod round_trip;
pub mod dangling;
pub mod resolution;
pub mod resolve;
pub mod soundness;
pub mod root_schema;
pub mod godot_schema;
pub mod laws;
