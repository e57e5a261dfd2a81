//! The items most users need, in one place.

pub use crate::attributes::{ColumnName, FieldAttribute, Key, MaxLength, NotNull, Reference, Unique};
pub use crate::blob::{decode_i32s, decode_u32s, encode_i32s, encode_u32s};
pub use crate::column_definition::ColumnDefinition;
pub use crate::constraints::FieldConstraint;
pub use crate::derivation::{ConfigurationError, field_definition, rust_to_sql_type};
pub use crate::descriptors::{FieldDescriptor, PrimitiveKind, StructDescriptor, TypeShape};
pub use crate::erm_types_registry::ErmTypesRegistry;
pub use crate::sql_types::SqlType;
pub use crate::table_definition::{TableDefinition, TableName};
