use vstd::prelude::*;

verus! {

/// Marks a key column.
#[derive(Debug, Default, Clone, Copy)]
pub struct Key;

/// Marks a column that requires a value.
#[derive(Debug, Default, Clone, Copy)]
pub struct NotNull;

/// Marks a column whose values are unique.
#[derive(Debug, Default, Clone, Copy)]
pub struct Unique;

/// Renames a column.
#[derive(Debug, Default, Clone)]
pub struct ColumnName {
    pub sql_name: String,
}

impl ColumnName {
    pub fn new(name: &str) -> (r: Self)
        ensures
            r.sql_name@ == name@,
    {
        ColumnName { sql_name: name.to_owned() }
    }
}

/// Relates a column to another table.
#[derive(Debug, Default, Clone)]
pub struct Reference {
    /// The native name of the related type.
    pub rust_name: String,
    /// The SQL name of the column used for the relation.
    pub key_field: String,
}

impl Reference {
    pub fn new(rust_name: &str, key_field: &str) -> (r: Self)
        ensures
            r.rust_name@ == rust_name@,
            r.key_field@ == key_field@,
    {
        Reference { rust_name: rust_name.to_owned(), key_field: key_field.to_owned() }
    }
}

/// Bounds the length of a text column.
#[derive(Debug, Default, Clone, Copy)]
pub struct MaxLength {
    pub length: usize,
}

impl MaxLength {
    pub fn new(s: usize) -> (r: Self)
        ensures
            r.length == s,
    {
        MaxLength { length: s }
    }
}

/// A declarative marker attached to a field.
#[derive(Debug, Clone)]
pub enum FieldAttribute {
    Key(Key),
    Unique(Unique),
    MaxLength(MaxLength),
    Reference(Reference),
    ColumnName(ColumnName),
}

} // verus!
