use vstd::prelude::*;
use vstd::string::StringExecFns;
use crate::text::{append_decimal, decimal, loading, loading_text, nullability, nullability_text};

verus! {

/// The storage kind of a column.
///
/// For the atomic variants the flag says whether a value is required
/// (`true` is NOT NULL). For the two relation variants it says whether the
/// related rows are loaded eagerly (`true`) or lazily (`false`). The target
/// of a relation is the native name of the related struct type.
#[derive(Debug, Clone)]
pub enum SqlType {
    /// Placeholder for a column whose type is not known yet.
    Placeholder,
    /// Signed integer with the given number of bits.
    Integer(usize, bool),
    /// Unsigned integer with the given number of bits.
    UnsingedInteger(usize, bool),
    /// Floating point number with 32 or 64 bits.
    Float(usize, bool),
    Text(bool),
    Date(bool),
    Time(bool),
    DateTime(bool),
    Blob(bool),
    Boolean(bool),
    One2One(String, bool),
    Many2Many(String, bool),
}

impl SqlType {
    /// The type with its flag cleared: a nullable atomic type, or a lazily
    /// loaded relation.
    pub open spec fn cleared(self) -> SqlType {
        match self {
            SqlType::Placeholder => SqlType::Placeholder,
            SqlType::Integer(b, _) => SqlType::Integer(b, false),
            SqlType::UnsingedInteger(b, _) => SqlType::UnsingedInteger(b, false),
            SqlType::Float(b, _) => SqlType::Float(b, false),
            SqlType::Text(_) => SqlType::Text(false),
            SqlType::Date(_) => SqlType::Date(false),
            SqlType::Time(_) => SqlType::Time(false),
            SqlType::DateTime(_) => SqlType::DateTime(false),
            SqlType::Blob(_) => SqlType::Blob(false),
            SqlType::Boolean(_) => SqlType::Boolean(false),
            SqlType::One2One(t, _) => SqlType::One2One(t, false),
            SqlType::Many2Many(t, _) => SqlType::Many2Many(t, false),
        }
    }

    /// Whether a column of this type requires a value. Relations and the
    /// placeholder never do.
    pub open spec fn spec_not_null(self) -> bool {
        match self {
            SqlType::Placeholder => false,
            SqlType::Integer(_, b) => b,
            SqlType::UnsingedInteger(_, b) => b,
            SqlType::Float(_, b) => b,
            SqlType::Text(b) => b,
            SqlType::Date(b) => b,
            SqlType::Time(b) => b,
            SqlType::DateTime(b) => b,
            SqlType::Blob(b) => b,
            SqlType::Boolean(b) => b,
            SqlType::One2One(_, _) => false,
            SqlType::Many2Many(_, _) => false,
        }
    }

    /// Whether a column of this type requires a value.
    pub fn not_null(&self) -> (r: bool)
        ensures
            r == self.spec_not_null(),
    {
        match self {
            SqlType::Placeholder => false,
            SqlType::Integer(_, b) => *b,
            SqlType::UnsingedInteger(_, b) => *b,
            SqlType::Float(_, b) => *b,
            SqlType::Text(b) => *b,
            SqlType::Date(b) => *b,
            SqlType::Time(b) => *b,
            SqlType::DateTime(b) => *b,
            SqlType::Blob(b) => *b,
            SqlType::Boolean(b) => *b,
            SqlType::One2One(_, _) => false,
            SqlType::Many2Many(_, _) => false,
        }
    }

    /// The type as text, such as `i-32 (not null)` or
    /// `One2One (Eager: lazy loading)`.
    pub open spec fn spec_describe(self) -> Seq<char> {
        match self {
            SqlType::Placeholder => "None"@,
            SqlType::Integer(bits, b) => "i-"@ + decimal(bits as nat) + " ("@ + nullability(b) + ")"@,
            SqlType::UnsingedInteger(bits, b) => "u-"@ + decimal(bits as nat) + " ("@ + nullability(b) + ")"@,
            SqlType::Float(bits, b) => "f-"@ + decimal(bits as nat) + " ("@ + nullability(b) + ")"@,
            SqlType::Text(b) => "Text ("@ + nullability(b) + ")"@,
            SqlType::Date(b) => "Date ("@ + nullability(b) + ")"@,
            SqlType::Time(b) => "Time ("@ + nullability(b) + ")"@,
            SqlType::DateTime(b) => "DateTime ("@ + nullability(b) + ")"@,
            SqlType::Blob(b) => "Blob ("@ + nullability(b) + ")"@,
            SqlType::Boolean(b) => "Boolean ("@ + nullability(b) + ")"@,
            SqlType::One2One(_, e) => "One2One (Eager: "@ + loading(e) + ")"@,
            SqlType::Many2Many(_, e) => "Many2Many (Eager: "@ + loading(e) + ")"@,
        }
    }

    /// The type as text, such as `i-32 (not null)` or
    /// `One2One (Eager: lazy loading)`.
    pub fn describe(&self) -> (r: String)
        ensures
            r@ == self.spec_describe(),
    {
        let mut s = String::new();
        match self {
            SqlType::Placeholder => {
                s.append("None");
            },
            SqlType::Integer(bits, b) => {
                s.append("i-");
                append_decimal(&mut s, *bits);
                s.append(" (");
                s.append(nullability_text(*b));
                s.append(")");
            },
            SqlType::UnsingedInteger(bits, b) => {
                s.append("u-");
                append_decimal(&mut s, *bits);
                s.append(" (");
                s.append(nullability_text(*b));
                s.append(")");
            },
            SqlType::Float(bits, b) => {
                s.append("f-");
                append_decimal(&mut s, *bits);
                s.append(" (");
                s.append(nullability_text(*b));
                s.append(")");
            },
            SqlType::Text(b) => {
                s.append("Text (");
                s.append(nullability_text(*b));
                s.append(")");
            },
            SqlType::Date(b) => {
                s.append("Date (");
                s.append(nullability_text(*b));
                s.append(")");
            },
            SqlType::Time(b) => {
                s.append("Time (");
                s.append(nullability_text(*b));
                s.append(")");
            },
            SqlType::DateTime(b) => {
                s.append("DateTime (");
                s.append(nullability_text(*b));
                s.append(")");
            },
            SqlType::Blob(b) => {
                s.append("Blob (");
                s.append(nullability_text(*b));
                s.append(")");
            },
            SqlType::Boolean(b) => {
                s.append("Boolean (");
                s.append(nullability_text(*b));
                s.append(")");
            },
            SqlType::One2One(_, e) => {
                s.append("One2One (Eager: ");
                s.append(loading_text(*e));
                s.append(")");
            },
            SqlType::Many2Many(_, e) => {
                s.append("Many2Many (Eager: ");
                s.append(loading_text(*e));
                s.append(")");
            },
        }
        proof {
            assert(s@ =~= self.spec_describe());
        }
        s
    }

    /// A copy of this type.
    pub fn duplicate(&self) -> (r: SqlType)
        ensures
            r == *self,
    {
        match self {
            SqlType::Placeholder => SqlType::Placeholder,
            SqlType::Integer(n, b) => SqlType::Integer(*n, *b),
            SqlType::UnsingedInteger(n, b) => SqlType::UnsingedInteger(*n, *b),
            SqlType::Float(n, b) => SqlType::Float(*n, *b),
            SqlType::Text(b) => SqlType::Text(*b),
            SqlType::Date(b) => SqlType::Date(*b),
            SqlType::Time(b) => SqlType::Time(*b),
            SqlType::DateTime(b) => SqlType::DateTime(*b),
            SqlType::Blob(b) => SqlType::Blob(*b),
            SqlType::Boolean(b) => SqlType::Boolean(*b),
            SqlType::One2One(t, e) => SqlType::One2One(t.clone(), *e),
            SqlType::Many2Many(t, e) => SqlType::Many2Many(t.clone(), *e),
        }
    }
}

impl PartialEq for SqlType {
    fn eq(&self, other: &SqlType) -> (r: bool) {
        match (self, other) {
            (SqlType::Placeholder, SqlType::Placeholder) => true,
            (SqlType::Integer(m, a), SqlType::Integer(n, b)) => *m == *n && *a == *b,
            (SqlType::UnsingedInteger(m, a), SqlType::UnsingedInteger(n, b)) => *m == *n && *a == *b,
            (SqlType::Float(m, a), SqlType::Float(n, b)) => *m == *n && *a == *b,
            (SqlType::Text(a), SqlType::Text(b)) => *a == *b,
            (SqlType::Date(a), SqlType::Date(b)) => *a == *b,
            (SqlType::Time(a), SqlType::Time(b)) => *a == *b,
            (SqlType::DateTime(a), SqlType::DateTime(b)) => *a == *b,
            (SqlType::Blob(a), SqlType::Blob(b)) => *a == *b,
            (SqlType::Boolean(a), SqlType::Boolean(b)) => *a == *b,
            (SqlType::One2One(s, a), SqlType::One2One(t, b)) => *s == *t && *a == *b,
            (SqlType::Many2Many(s, a), SqlType::Many2Many(t, b)) => *s == *t && *a == *b,
            _ => false,
        }
    }
}

impl vstd::std_specs::cmp::PartialEqSpecImpl for SqlType {
    open spec fn obeys_eq_spec() -> bool {
        true
    }

    open spec fn eq_spec(&self, other: &SqlType) -> bool {
        match (*self, *other) {
            (SqlType::Placeholder, SqlType::Placeholder) => true,
            (SqlType::Integer(m, a), SqlType::Integer(n, b)) => m == n && a == b,
            (SqlType::UnsingedInteger(m, a), SqlType::UnsingedInteger(n, b)) => m == n && a == b,
            (SqlType::Float(m, a), SqlType::Float(n, b)) => m == n && a == b,
            (SqlType::Text(a), SqlType::Text(b)) => a == b,
            (SqlType::Date(a), SqlType::Date(b)) => a == b,
            (SqlType::Time(a), SqlType::Time(b)) => a == b,
            (SqlType::DateTime(a), SqlType::DateTime(b)) => a == b,
            (SqlType::Blob(a), SqlType::Blob(b)) => a == b,
            (SqlType::Boolean(a), SqlType::Boolean(b)) => a == b,
            (SqlType::One2One(s, a), SqlType::One2One(t, b)) => s@ == t@ && a == b,
            (SqlType::Many2Many(s, a), SqlType::Many2Many(t, b)) => s@ == t@ && a == b,
            _ => false,
        }
    }
}

} // verus!
