use vstd::prelude::*;
use crate::attributes::FieldAttribute;
use crate::table_definition::TableName;

verus! {

/// A primitive kind of value that maps onto an atomic column type.
#[derive(Debug, Clone, Copy, PartialEq, Eq, Structural)]
pub enum PrimitiveKind {
    U8,
    U16,
    U32,
    U64,
    U128,
    I8,
    I16,
    I32,
    I64,
    I128,
    Usize,
    Float32,
    Float64,
    Text,
    Bool,
}

/// What the type catalogue tells of a native type, reduced to what the
/// schema needs.
#[derive(Debug)]
pub enum TypeShape {
    Primitive(PrimitiveKind),
    /// A fixed-width value type (vectors, quaternion, color, rectangle),
    /// stored as a blob.
    FixedWidth,
    /// An optional value of the inner type.
    Optional(Box<TypeShape>),
    /// A list of values of the inner type.
    Collection(Box<TypeShape>),
    /// A struct type that the catalogue knows, by its native name.
    Struct(String),
    /// A type that the catalogue holds no description of.
    Unresolved,
    /// Any other type.
    Opaque,
}

/// One named field of a struct type, in declaration order.
#[derive(Debug)]
pub struct FieldDescriptor {
    pub name: String,
    /// The shape of the field's type, or `None` when it cannot be
    /// introspected.
    pub shape: Option<TypeShape>,
    /// The declarative attributes on the field, in the order they apply.
    pub attributes: Vec<FieldAttribute>,
}

/// A native struct type as the catalogue describes it.
#[derive(Debug)]
pub struct StructDescriptor {
    /// The native type name.
    pub name: String,
    /// Whether the fields have names; tuple structs have none.
    pub named_fields: bool,
    /// The table-rename attribute on the struct, if any.
    pub table_name: Option<TableName>,
    pub fields: Vec<FieldDescriptor>,
}

} // verus!
