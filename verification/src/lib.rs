//! A schema-compiler backend: it turns a schema description (files, structs,
//! enums, fields and unions) into source text for owned value types and for the
//! conversions between those types and the schema's own readers and builders.

pub mod error;
pub mod sequences;
pub mod text;
pub mod parser;
pub mod rust;
