use vstd::prelude::*;
use vstd::string::StringExecFns;
use crate::text::{append_decimal, decimal};

verus! {

/// A column-level constraint. A column holds at most one of each kind.
#[derive(Debug, Clone)]
pub enum FieldConstraint {
    Key,
    MaxLength(usize),
    Unique,
    /// The related table and the column used for the relation.
    Reference(String, String),
}

/// `a` and `b` are constraints of the same kind, whatever their payloads.
pub open spec fn same_kind(a: FieldConstraint, b: FieldConstraint) -> bool {
    match (a, b) {
        (FieldConstraint::Key, FieldConstraint::Key) => true,
        (FieldConstraint::MaxLength(_), FieldConstraint::MaxLength(_)) => true,
        (FieldConstraint::Unique, FieldConstraint::Unique) => true,
        (FieldConstraint::Reference(_, _), FieldConstraint::Reference(_, _)) => true,
        _ => false,
    }
}

/// The test for a constraint of the same kind as `c`. It depends on the kind
/// of `c` alone, not on its payload.
pub open spec fn of_kind(c: FieldConstraint) -> spec_fn(FieldConstraint) -> bool {
    match c {
        FieldConstraint::Key => |e: FieldConstraint| e is Key,
        FieldConstraint::MaxLength(_) => |e: FieldConstraint| e is MaxLength,
        FieldConstraint::Unique => |e: FieldConstraint| e is Unique,
        FieldConstraint::Reference(_, _) => |e: FieldConstraint| e is Reference,
    }
}

impl FieldConstraint {
    /// The constraint as text, such as `length max: 64` or
    /// `reference (Player - id)`.
    pub open spec fn spec_describe(self) -> Seq<char> {
        match self {
            FieldConstraint::Key => "key"@,
            FieldConstraint::MaxLength(n) => "length max: "@ + decimal(n as nat),
            FieldConstraint::Unique => "unique"@,
            FieldConstraint::Reference(t, c) => "reference ("@ + t@ + " - "@ + c@ + ")"@,
        }
    }

    /// The constraint as text, such as `length max: 64` or
    /// `reference (Player - id)`.
    pub fn describe(&self) -> (r: String)
        ensures
            r@ == self.spec_describe(),
    {
        let mut s = String::new();
        match self {
            FieldConstraint::Key => {
                s.append("key");
            },
            FieldConstraint::MaxLength(n) => {
                s.append("length max: ");
                append_decimal(&mut s, *n);
            },
            FieldConstraint::Unique => {
                s.append("unique");
            },
            FieldConstraint::Reference(t, c) => {
                s.append("reference (");
                s.append(t.as_str());
                s.append(" - ");
                s.append(c.as_str());
                s.append(")");
            },
        }
        proof {
            assert(s@ =~= self.spec_describe());
        }
        s
    }

    /// A copy of this constraint.
    pub fn duplicate(&self) -> (r: FieldConstraint)
        ensures
            r == *self,
    {
        match self {
            FieldConstraint::Key => FieldConstraint::Key,
            FieldConstraint::MaxLength(n) => FieldConstraint::MaxLength(*n),
            FieldConstraint::Unique => FieldConstraint::Unique,
            FieldConstraint::Reference(t, c) => FieldConstraint::Reference(t.clone(), c.clone()),
        }
    }

    /// Whether `self` and `other` are of the same kind.
    pub fn same_kind_as(&self, other: &FieldConstraint) -> (r: bool)
        ensures
            r == same_kind(*self, *other),
    {
        match (self, other) {
            (FieldConstraint::Key, FieldConstraint::Key) => true,
            (FieldConstraint::MaxLength(_), FieldConstraint::MaxLength(_)) => true,
            (FieldConstraint::Unique, FieldConstraint::Unique) => true,
            (FieldConstraint::Reference(_, _), FieldConstraint::Reference(_, _)) => true,
            _ => false,
        }
    }
}

impl PartialEq for FieldConstraint {
    fn eq(&self, other: &FieldConstraint) -> (r: bool) {
        match (self, other) {
            (FieldConstraint::Key, FieldConstraint::Key) => true,
            (FieldConstraint::MaxLength(a), FieldConstraint::MaxLength(b)) => *a == *b,
            (FieldConstraint::Unique, FieldConstraint::Unique) => true,
            (FieldConstraint::Reference(t1, c1), FieldConstraint::Reference(t2, c2)) => {
                *t1 == *t2 && *c1 == *c2
            },
            _ => false,
        }
    }
}

impl vstd::std_specs::cmp::PartialEqSpecImpl for FieldConstraint {
    open spec fn obeys_eq_spec() -> bool {
        true
    }

    open spec fn eq_spec(&self, other: &FieldConstraint) -> bool {
        match (*self, *other) {
            (FieldConstraint::Key, FieldConstraint::Key) => true,
            (FieldConstraint::MaxLength(a), FieldConstraint::MaxLength(b)) => a == b,
            (FieldConstraint::Unique, FieldConstraint::Unique) => true,
            (FieldConstraint::Reference(t1, c1), FieldConstraint::Reference(t2, c2)) => {
                t1@ == t2@ && c1@ == c2@
            },
            _ => false,
        }
    }
}

} // verus!
