//! Schema generation and instantiation for classes of a reflective object runtime.
//!
//! A class is described by its list of property descriptors. The library turns
//! such a description into a closed, reference-based schema graph, emits that
//! graph as a JSON Schema document, and rebuilds native values from JSON that
//! follows the graph.

pub mod names;
pub mod text;
pub mod json;
pub mod json_text;
pub mod json_io;
pub mod kinds;
pub mod source;
pub mod host;
pub mod error;
pub mod native;
pub mod schema;
pub mod library;

pub use json::{JsonNumber, JsonValue, JsonView};
pub use kinds::{PropertyHint, PropertyUsageFlags, VariantType, CLASS_IS_ENUM};
pub use schema::variant::VariantDefinition;
pub use source::{ClassId, ClassSource};
pub use error::{Error, ErrorCategory, ErrorView, ExpectedKind};
pub use native::{ElementType, NativeValue, NativeView};
pub use host::{ClassInfo, ClassRegistry, PropertyTypeInfo};
pub use library::SchemaLibrary;
pub use schema::builder::Builder;
pub use schema::definition::Definitions;
pub use schema::godot_schema::GodotSchema;
pub use schema::json_conversion::{definition_of, json_type_of, FromJson, GetDefinition};
pub use schema::instantiate::{new_array_from_def, raw_variant_from_json};
pub use schema::resolve::{eval_no_type_hint, raw_definition_from_name, raw_variant_definition};
pub use schema::root_schema::RootSchema;
pub use schema::types::{
    Boolean, Definition, Integer, JArray, JClass, JEnum, JObject, JRef, JString, JTuple, Null,
    Number, Type,
};
