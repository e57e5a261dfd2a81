use vstd::prelude::*;
use crate::attributes::FieldAttribute;
use crate::column_definition::{ColumnDefinition, ColumnView, with_constraint};
use crate::constraints::FieldConstraint;
use crate::descriptors::{FieldDescriptor, PrimitiveKind, TypeShape};
use crate::sql_types::SqlType;

verus! {

/// A type whose shape the schema cannot hold.
#[derive(Debug, Clone, Copy, PartialEq, Eq, Structural)]
pub enum ConfigurationError {
    /// An optional or a list whose element type the catalogue cannot
    /// describe.
    UnresolvedType,
    /// A list of lists of related rows.
    NestedRelation,
}

/// The atomic column type of a primitive kind; a value is required.
pub open spec fn primitive_type(k: PrimitiveKind) -> SqlType {
    match k {
        PrimitiveKind::U8 => SqlType::UnsingedInteger(8, true),
        PrimitiveKind::U16 => SqlType::UnsingedInteger(16, true),
        PrimitiveKind::U32 => SqlType::UnsingedInteger(32, true),
        PrimitiveKind::U64 => SqlType::UnsingedInteger(64, true),
        PrimitiveKind::U128 => SqlType::UnsingedInteger(128, true),
        PrimitiveKind::I8 => SqlType::Integer(8, true),
        PrimitiveKind::I16 => SqlType::Integer(16, true),
        PrimitiveKind::I32 => SqlType::Integer(32, true),
        PrimitiveKind::I64 => SqlType::Integer(64, true),
        PrimitiveKind::I128 => SqlType::Integer(128, true),
        PrimitiveKind::Usize => SqlType::Integer(64, true),
        PrimitiveKind::Float32 => SqlType::Float(32, true),
        PrimitiveKind::Float64 => SqlType::Float(64, true),
        PrimitiveKind::Text => SqlType::Text(true),
        PrimitiveKind::Bool => SqlType::Boolean(true),
    }
}

/// The column type of a field of the given shape.
///
/// An optional clears the flag of its element's type (a nullable value, a
/// lazily loaded relation). A list of structs is an eagerly loaded
/// many-to-many relation; a list of atomic values is stored as a nullable
/// atomic column; a list of lists of structs is refused.
pub open spec fn sql_type_of(shape: TypeShape) -> Result<SqlType, ConfigurationError>
    decreases shape,
{
    match shape {
        TypeShape::Primitive(k) => Ok(primitive_type(k)),
        TypeShape::FixedWidth => Ok(SqlType::Blob(true)),
        TypeShape::Optional(inner) => match sql_type_of(*inner) {
            Ok(t) => Ok(t.cleared()),
            Err(e) => Err(e),
        },
        TypeShape::Collection(inner) => match sql_type_of(*inner) {
            Ok(SqlType::One2One(target, _)) => Ok(SqlType::Many2Many(target, true)),
            Ok(SqlType::Many2Many(_, _)) => Err(ConfigurationError::NestedRelation),
            Ok(t) => Ok(t.cleared()),
            Err(e) => Err(e),
        },
        TypeShape::Struct(name) => Ok(SqlType::One2One(name, true)),
        TypeShape::Unresolved => Err(ConfigurationError::UnresolvedType),
        TypeShape::Opaque => Ok(SqlType::Blob(true)),
    }
}

/// The constraints that the attributes give, applied in order.
pub open spec fn attribute_constraints(attrs: Seq<FieldAttribute>) -> Seq<FieldConstraint>
    decreases attrs.len(),
{
    if attrs.len() == 0 {
        Seq::empty()
    } else {
        let cs = attribute_constraints(attrs.drop_last());
        match attrs.last() {
            FieldAttribute::Key(_) => with_constraint(cs, FieldConstraint::Key),
            FieldAttribute::Unique(_) => with_constraint(cs, FieldConstraint::Unique),
            FieldAttribute::MaxLength(m) => with_constraint(cs, FieldConstraint::MaxLength(m.length)),
            FieldAttribute::Reference(r) => with_constraint(
                cs,
                FieldConstraint::Reference(r.rust_name, r.key_field),
            ),
            FieldAttribute::ColumnName(_) => cs,
        }
    }
}

/// The column's SQL name: the last rename among the attributes, or else
/// the field's own name.
pub open spec fn column_name_of(name: Seq<char>, attrs: Seq<FieldAttribute>) -> Seq<char>
    decreases attrs.len(),
{
    if attrs.len() == 0 {
        name
    } else {
        match attrs.last() {
            FieldAttribute::ColumnName(c) => c.sql_name@,
            _ => column_name_of(name, attrs.drop_last()),
        }
    }
}

/// The column that a field at position `order` compiles to: `None` when
/// its type cannot be introspected, an error when its type has no column
/// type.
pub open spec fn field_column(f: FieldDescriptor, order: nat) -> Option<Result<ColumnView, ConfigurationError>> {
    match f.shape {
        None => None,
        Some(shape) => Some(
            match sql_type_of(shape) {
                Ok(t) => Ok(
                    ColumnView {
                        rust_name: f.name@,
                        sql_name: column_name_of(f.name@, f.attributes@),
                        sql_type: t,
                        order,
                        constraints: attribute_constraints(f.attributes@),
                    },
                ),
                Err(e) => Err(e),
            },
        ),
    }
}

/// A bare primitive field requires a value; an optional primitive field
/// keeps the primitive's storage kind and does not.
pub proof fn lemma_optional_primitive(k: PrimitiveKind)
    ensures
        sql_type_of(TypeShape::Primitive(k)) == Ok::<SqlType, ConfigurationError>(primitive_type(k)),
        primitive_type(k).spec_not_null(),
        sql_type_of(TypeShape::Optional(Box::new(TypeShape::Primitive(k)))) == Ok::<
            SqlType,
            ConfigurationError,
        >(primitive_type(k).cleared()),
        !primitive_type(k).cleared().spec_not_null(),
{
}

/// A list of structs is an eagerly loaded many-to-many relation; an
/// optional list of structs is a lazily loaded one.
pub proof fn lemma_collection_of_struct(target: String)
    ensures
        sql_type_of(TypeShape::Collection(Box::new(TypeShape::Struct(target)))) == Ok::<
            SqlType,
            ConfigurationError,
        >(SqlType::Many2Many(target, true)),
        sql_type_of(
            TypeShape::Optional(Box::new(TypeShape::Collection(Box::new(TypeShape::Struct(target))))),
        ) == Ok::<SqlType, ConfigurationError>(SqlType::Many2Many(target, false)),
{
    let inner = TypeShape::Struct(target);
    assert(sql_type_of(inner) == Ok::<SqlType, ConfigurationError>(SqlType::One2One(target, true)));
    let list = TypeShape::Collection(Box::new(inner));
    assert(sql_type_of(list) == Ok::<SqlType, ConfigurationError>(SqlType::Many2Many(target, true)));
}

/// A struct field is an eagerly loaded one-to-one relation; an optional
/// struct field is a lazily loaded one.
pub proof fn lemma_struct_relation(target: String)
    ensures
        sql_type_of(TypeShape::Struct(target)) == Ok::<SqlType, ConfigurationError>(
            SqlType::One2One(target, true),
        ),
        sql_type_of(TypeShape::Optional(Box::new(TypeShape::Struct(target)))) == Ok::<
            SqlType,
            ConfigurationError,
        >(SqlType::One2One(target, false)),
{
}

fn primitive_sql_type(k: PrimitiveKind) -> (r: SqlType)
    ensures
        r == primitive_type(k),
{
    match k {
        PrimitiveKind::U8 => SqlType::UnsingedInteger(8, true),
        PrimitiveKind::U16 => SqlType::UnsingedInteger(16, true),
        PrimitiveKind::U32 => SqlType::UnsingedInteger(32, true),
        PrimitiveKind::U64 => SqlType::UnsingedInteger(64, true),
        PrimitiveKind::U128 => SqlType::UnsingedInteger(128, true),
        PrimitiveKind::I8 => SqlType::Integer(8, true),
        PrimitiveKind::I16 => SqlType::Integer(16, true),
        PrimitiveKind::I32 => SqlType::Integer(32, true),
        PrimitiveKind::I64 => SqlType::Integer(64, true),
        PrimitiveKind::I128 => SqlType::Integer(128, true),
        PrimitiveKind::Usize => SqlType::Integer(64, true),
        PrimitiveKind::Float32 => SqlType::Float(32, true),
        PrimitiveKind::Float64 => SqlType::Float(64, true),
        PrimitiveKind::Text => SqlType::Text(true),
        PrimitiveKind::Bool => SqlType::Boolean(true),
    }
}

/// `t` with its flag cleared.
fn clear_flag(t: SqlType) -> (r: SqlType)
    ensures
        r == t.cleared(),
{
    match t {
        SqlType::Placeholder => SqlType::Placeholder,
        SqlType::Integer(b, _) => SqlType::Integer(b, false),
        SqlType::UnsingedInteger(b, _) => SqlType::UnsingedInteger(b, false),
        SqlType::Float(b, _) => SqlType::Float(b, false),
        SqlType::Text(_) => SqlType::Text(false),
        SqlType::Date(_) => SqlType::Date(false),
        SqlType::Time(_) => SqlType::Time(false),
        SqlType::DateTime(_) => SqlType::DateTime(false),
        SqlType::Blob(_) => SqlType::Blob(false),
        SqlType::Boolean(_) => SqlType::Boolean(false),
        SqlType::One2One(target, _) => SqlType::One2One(target, false),
        SqlType::Many2Many(target, _) => SqlType::Many2Many(target, false),
    }
}

/// Maps the shape of a native type to a column type.
pub fn rust_to_sql_type(shape: &TypeShape) -> (r: Result<SqlType, ConfigurationError>)
    ensures
        r == sql_type_of(*shape),
    decreases shape,
{
    match shape {
        TypeShape::Primitive(k) => Ok(primitive_sql_type(*k)),
        TypeShape::FixedWidth => Ok(SqlType::Blob(true)),
        TypeShape::Optional(inner) => match rust_to_sql_type(inner) {
            Ok(t) => Ok(clear_flag(t)),
            Err(e) => Err(e),
        },
        TypeShape::Collection(inner) => match rust_to_sql_type(inner) {
            Ok(SqlType::One2One(target, _)) => Ok(SqlType::Many2Many(target, true)),
            Ok(SqlType::Many2Many(_, _)) => Err(ConfigurationError::NestedRelation),
            Ok(t) => Ok(clear_flag(t)),
            Err(e) => Err(e),
        },
        TypeShape::Struct(name) => Ok(SqlType::One2One(name.clone(), true)),
        TypeShape::Unresolved => Err(ConfigurationError::UnresolvedType),
        TypeShape::Opaque => Ok(SqlType::Blob(true)),
    }
}

/// Compiles one field into a column: its name, its renames, its
/// constraints and its column type.
pub fn field_definition(f: &FieldDescriptor, order: usize) -> (r: Result<Option<ColumnDefinition>, ConfigurationError>)
    ensures
        match r {
            Ok(None) => field_column(*f, order as nat) is None,
            Ok(Some(c)) => field_column(*f, order as nat) == Some(Ok::<ColumnView, ConfigurationError>(c@))
                && c.wf(),
            Err(e) => field_column(*f, order as nat) == Some(Err::<ColumnView, ConfigurationError>(e)),
        },
{
    let shape = match &f.shape {
        None => return Ok(None),
        Some(s) => s,
    };
    let mut def = ColumnDefinition {
        rust_name: f.name.clone(),
        sql_name: f.name.clone(),
        sql_type: SqlType::Placeholder,
        order,
        constraints: Vec::new(),
    };
    let ghost attrs = f.attributes@;
    let mut i: usize = 0;
    while i < f.attributes.len()
        invariant
            i <= attrs.len(),
            attrs == f.attributes@,
            def.rust_name@ == f.name@,
            def.order == order,
            def.sql_name@ == column_name_of(f.name@, attrs.subrange(0, i as int)),
            def.constraints@ == attribute_constraints(attrs.subrange(0, i as int)),
            def.wf(),
        decreases attrs.len() - i,
    {
        proof {
            assert(attrs.subrange(0, i + 1).drop_last() == attrs.subrange(0, i as int));
        }
        match &f.attributes[i] {
            FieldAttribute::Key(_) => def.add(FieldConstraint::Key),
            FieldAttribute::Unique(_) => def.add(FieldConstraint::Unique),
            FieldAttribute::MaxLength(m) => def.add(FieldConstraint::MaxLength(m.length)),
            FieldAttribute::Reference(rf) => def.add(
                FieldConstraint::Reference(rf.rust_name.clone(), rf.key_field.clone()),
            ),
            FieldAttribute::ColumnName(c) => {
                def.sql_name = c.sql_name.clone();
            },
        }
        i = i + 1;
    }
    proof {
        assert(attrs.subrange(0, attrs.len() as int) == attrs);
    }
    match rust_to_sql_type(shape) {
        Ok(t) => {
            def.sql_type = t;
            Ok(Some(def))
        },
        Err(e) => Err(e),
    }
}

} // verus!
