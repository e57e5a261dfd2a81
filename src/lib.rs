//! Derives a relational schema (tables, columns, storage types and column
//! constraints) from plain descriptions of struct types, and encodes
//! fixed-width values as blobs.

pub mod attributes;
pub mod blob;
pub mod column_definition;
pub mod constraints;
pub mod derivation;
pub mod descriptors;
pub mod erm_types_registry;
pub mod prelude;
pub mod search;
pub mod sql_types;
pub mod table_definition;
pub mod text;
