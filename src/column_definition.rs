use vstd::prelude::*;
use vstd::string::StringExecFns;
use crate::text::joined;
use crate::constraints::{FieldConstraint, of_kind, same_kind};
use crate::search::{any, first_index, is_first, lemma_first_index, lemma_first_index_at, lemma_first_index_none};
use crate::sql_types::SqlType;

verus! {

/// The schema derived from one struct field.
#[derive(Debug)]
pub struct ColumnDefinition {
    pub rust_name: String,
    pub sql_name: String,
    pub sql_type: SqlType,
    /// The field's position in the struct's declaration.
    pub order: usize,
    pub constraints: Vec<FieldConstraint>,
}

/// What a column holds, as mathematical values.
pub struct ColumnView {
    pub rust_name: Seq<char>,
    pub sql_name: Seq<char>,
    pub sql_type: SqlType,
    pub order: nat,
    pub constraints: Seq<FieldConstraint>,
}

impl View for ColumnDefinition {
    type V = ColumnView;

    open spec fn view(&self) -> ColumnView {
        ColumnView {
            rust_name: self.rust_name@,
            sql_name: self.sql_name@,
            sql_type: self.sql_type,
            order: self.order as nat,
            constraints: self.constraints@,
        }
    }
}

/// No two constraints of the sequence are of the same kind.
pub open spec fn constraints_wf(cs: Seq<FieldConstraint>) -> bool {
    forall|i: int, j: int|
        0 <= i < cs.len() && 0 <= j < cs.len() && i != j ==> !same_kind(#[trigger] cs[i], #[trigger] cs[j])
}

/// The constraints after `c` is applied to `cs`: a key or unique marker is
/// added once and kept; a length bound or a reference replaces the one of
/// its kind, and the new one goes last.
pub open spec fn with_constraint(cs: Seq<FieldConstraint>, c: FieldConstraint) -> Seq<FieldConstraint> {
    let i = first_index(cs, of_kind(c));
    match c {
        FieldConstraint::Key | FieldConstraint::Unique => if i >= 0 {
            cs
        } else {
            cs.push(c)
        },
        _ => if i >= 0 {
            cs.remove(i).push(c)
        } else {
            cs.push(c)
        },
    }
}

/// The length bound among `cs`, if there is one.
pub open spec fn max_length_of(cs: Seq<FieldConstraint>) -> Option<usize> {
    let i = first_index(cs, of_kind(FieldConstraint::MaxLength(0)));
    if i >= 0 {
        match cs[i] {
            FieldConstraint::MaxLength(n) => Some(n),
            _ => None,
        }
    } else {
        None
    }
}

/// The reference among `cs`, if there is one.
pub open spec fn reference_of(cs: Seq<FieldConstraint>) -> Option<FieldConstraint> {
    let i = first_index(cs, of_kind(FieldConstraint::Reference(arbitrary(), arbitrary())));
    if i >= 0 {
        Some(cs[i])
    } else {
        None
    }
}

/// A column as text: its names, its type and its constraints, such as
/// `key (id) - i-32 (not null) key`.
pub open spec fn column_text(c: ColumnView) -> Seq<char> {
    c.rust_name + " ("@ + c.sql_name + ") - "@ + c.sql_type.spec_describe() + " "@ + joined(
        c.constraints.map_values(|k: FieldConstraint| k.spec_describe()),
        " - "@,
    )
}

/// Applying a constraint keeps at most one constraint of each kind.
pub proof fn lemma_with_constraint_wf(cs: Seq<FieldConstraint>, c: FieldConstraint)
    requires
        constraints_wf(cs),
    ensures
        constraints_wf(with_constraint(cs, c)),
{
    let k = first_index(cs, of_kind(c));
    lemma_first_index(cs, of_kind(c));
    if k < 0 {
        let r = cs.push(c);
        assert forall|i: int, j: int|
            0 <= i < r.len() && 0 <= j < r.len() && i != j implies !same_kind(
            #[trigger] r[i],
            #[trigger] r[j],
        ) by {
            if i == cs.len() {
                assert(!of_kind(c)(cs[j]));
            } else if j == cs.len() {
                assert(!of_kind(c)(cs[i]));
            }
        }
    } else if !(c is Key || c is Unique) {
        let rest = cs.remove(k);
        let r = rest.push(c);
        assert forall|i: int, j: int|
            0 <= i < r.len() && 0 <= j < r.len() && i != j implies !same_kind(
            #[trigger] r[i],
            #[trigger] r[j],
        ) by {
            assert(of_kind(c)(cs[k]));
            if i == rest.len() {
                let jj = if j < k { j } else { j + 1 };
                assert(rest[j] == cs[jj]);
                assert(!same_kind(cs[jj], cs[k]));
            } else if j == rest.len() {
                let ii = if i < k { i } else { i + 1 };
                assert(rest[i] == cs[ii]);
                assert(!same_kind(cs[ii], cs[k]));
            } else {
                let ii = if i < k { i } else { i + 1 };
                let jj = if j < k { j } else { j + 1 };
                assert(rest[i] == cs[ii]);
                assert(rest[j] == cs[jj]);
            }
        }
    }
}

/// A length bound or a reference that is applied replaces the one of its
/// kind: afterwards it is the last constraint and the only one of its kind.
pub proof fn lemma_with_constraint_replaces(cs: Seq<FieldConstraint>, c: FieldConstraint)
    requires
        constraints_wf(cs),
        c is MaxLength || c is Reference,
    ensures
        with_constraint(cs, c).last() == c,
        forall|i: int|
            0 <= i < with_constraint(cs, c).len() - 1 ==> !of_kind(c)(
                #[trigger] with_constraint(cs, c)[i],
            ),
{
    let k = first_index(cs, of_kind(c));
    lemma_first_index(cs, of_kind(c));
    let r = with_constraint(cs, c);
    if k >= 0 {
        let rest = cs.remove(k);
        assert forall|i: int| 0 <= i < r.len() - 1 implies !of_kind(c)(#[trigger] r[i]) by {
            let ii = if i < k { i } else { i + 1 };
            assert(r[i] == cs[ii]);
            assert(of_kind(c)(cs[k]));
            assert(!same_kind(cs[ii], cs[k]));
        }
    } else {
        assert forall|i: int| 0 <= i < r.len() - 1 implies !of_kind(c)(#[trigger] r[i]) by {
            assert(r[i] == cs[i]);
        }
    }
}

/// Applying a length bound twice, with any two values, leaves exactly one
/// length bound, and it carries the value applied last.
pub proof fn lemma_max_length_last_wins(cs: Seq<FieldConstraint>, first: usize, second: usize)
    requires
        constraints_wf(cs),
    ensures
        constraints_wf(with_constraint(with_constraint(cs, FieldConstraint::MaxLength(first)), FieldConstraint::MaxLength(second))),
        ({
            let r = with_constraint(with_constraint(cs, FieldConstraint::MaxLength(first)), FieldConstraint::MaxLength(second));
            &&& r.last() == FieldConstraint::MaxLength(second)
            &&& forall|i: int| 0 <= i < r.len() && (#[trigger] r[i]) is MaxLength ==> i == r.len() - 1
            &&& max_length_of(r) == Some(second)
        }),
{
    let once = with_constraint(cs, FieldConstraint::MaxLength(first));
    let r = with_constraint(once, FieldConstraint::MaxLength(second));
    lemma_with_constraint_wf(cs, FieldConstraint::MaxLength(first));
    lemma_with_constraint_wf(once, FieldConstraint::MaxLength(second));
    lemma_with_constraint_replaces(once, FieldConstraint::MaxLength(second));
    assert forall|i: int| 0 <= i < r.len() && (#[trigger] r[i]) is MaxLength implies i == r.len() - 1 by {
        if i < r.len() - 1 {
            assert(!of_kind(FieldConstraint::MaxLength(second))(r[i]));
        }
    }
    assert(of_kind(FieldConstraint::MaxLength(0)) == of_kind(FieldConstraint::MaxLength(second)));
    assert(is_first(r, of_kind(FieldConstraint::MaxLength(0)), r.len() - 1));
    lemma_first_index_at(r, of_kind(FieldConstraint::MaxLength(0)), r.len() - 1);
}

/// The position of the first constraint of the same kind as `c`.
fn position_of_kind(cs: &Vec<FieldConstraint>, c: &FieldConstraint) -> (r: Option<usize>)
    ensures
        r matches Some(i) ==> is_first(cs@, of_kind(*c), i as int) && first_index(cs@, of_kind(*c)) == i,
        r is None ==> !any(cs@, of_kind(*c)) && first_index(cs@, of_kind(*c)) == -1,
{
    let mut i: usize = 0;
    while i < cs.len()
        invariant
            i <= cs@.len(),
            forall|j: int| 0 <= j < i ==> !(#[trigger] of_kind(*c)(cs@[j])),
        decreases cs@.len() - i,
    {
        if cs[i].same_kind_as(c) {
            proof {
                assert(of_kind(*c)(cs@[i as int]));
                lemma_first_index_at(cs@, of_kind(*c), i as int);
            }
            return Some(i);
        }
        i = i + 1;
    }
    proof {
        lemma_first_index_none(cs@, of_kind(*c));
    }
    None
}

impl ColumnDefinition {
    /// The constraints hold at most one of each kind.
    pub open spec fn wf(&self) -> bool {
        constraints_wf(self.constraints@)
    }

    /// A column without constraints, stored as a blob that requires a value.
    pub fn new(name: &str, sql_name: &str) -> (r: Self)
        ensures
            r@ == (ColumnView {
                rust_name: name@,
                sql_name: sql_name@,
                sql_type: SqlType::Blob(true),
                order: 0,
                constraints: Seq::empty(),
            }),
            r.wf(),
    {
        ColumnDefinition {
            rust_name: name.to_owned(),
            sql_name: sql_name.to_owned(),
            sql_type: SqlType::Blob(true),
            order: 0,
            constraints: Vec::new(),
        }
    }

    /// Applies a constraint. A key or unique marker that is already there
    /// changes nothing; a length bound or a reference replaces the one of
    /// its kind.
    pub fn add(&mut self, constraint: FieldConstraint)
        ensures
            final(self)@ == (ColumnView {
                constraints: with_constraint(old(self).constraints@, constraint),
                ..old(self)@
            }),
            old(self).wf() ==> final(self).wf(),
    {
        let pos = position_of_kind(&self.constraints, &constraint);
        let ghost cs = self.constraints@;
        match constraint {
            FieldConstraint::Key | FieldConstraint::Unique => {
                if pos.is_some() {
                    return;
                }
            },
            _ => {
                if let Some(i) = pos {
                    self.constraints.remove(i);
                }
            },
        }
        proof {
            if constraints_wf(cs) {
                lemma_with_constraint_wf(cs, constraint);
            }
        }
        self.constraints.push(constraint);
    }
    /// Whether the column is marked as key.
    pub fn is_key(&self) -> (r: bool)
        ensures
            r == any(self.constraints@, of_kind(FieldConstraint::Key)),
    {
        position_of_kind(&self.constraints, &FieldConstraint::Key).is_some()
    }

    /// Whether the column requires a value.
    pub fn is_not_null(&self) -> (r: bool)
        ensures
            r == self.sql_type.spec_not_null(),
    {
        self.sql_type.not_null()
    }

    /// Whether the column relates to another table.
    pub fn is_reference(&self) -> (r: bool)
        ensures
            r == any(self.constraints@, of_kind(FieldConstraint::Reference(arbitrary(), arbitrary()))),
    {
        let probe = FieldConstraint::Reference(String::new(), String::new());
        position_of_kind(&self.constraints, &probe).is_some()
    }

    /// Whether the column has a length bound.
    pub fn has_max_length(&self) -> (r: bool)
        ensures
            r == any(self.constraints@, of_kind(FieldConstraint::MaxLength(0))),
    {
        position_of_kind(&self.constraints, &FieldConstraint::MaxLength(0)).is_some()
    }

    /// Whether the column is marked as unique.
    pub fn is_unique(&self) -> (r: bool)
        ensures
            r == any(self.constraints@, of_kind(FieldConstraint::Unique)),
    {
        position_of_kind(&self.constraints, &FieldConstraint::Unique).is_some()
    }

    /// The column's length bound, or `None` when it has none.
    pub fn get_max_length(&self) -> (r: Option<usize>)
        ensures
            r == max_length_of(self.constraints@),
            r is Some <==> any(self.constraints@, of_kind(FieldConstraint::MaxLength(0))),
    {
        match position_of_kind(&self.constraints, &FieldConstraint::MaxLength(0)) {
            Some(i) => match &self.constraints[i] {
                FieldConstraint::MaxLength(n) => Some(*n),
                _ => None,
            },
            None => None,
        }
    }

    /// The column's reference constraint, or `None` when it has none.
    pub fn get_refence(&self) -> (r: Option<FieldConstraint>)
        ensures
            r == reference_of(self.constraints@),
            r is Some <==> any(self.constraints@, of_kind(FieldConstraint::Reference(arbitrary(), arbitrary()))),
    {
        let probe = FieldConstraint::Reference(String::new(), String::new());
        match position_of_kind(&self.constraints, &probe) {
            Some(i) => Some(self.constraints[i].duplicate()),
            None => None,
        }
    }
    /// The column as text: its names, its type and its constraints.
    pub fn describe(&self) -> (r: String)
        ensures
            r@ == column_text(self@),
    {
        let mut s = String::new();
        s.append(self.rust_name.as_str());
        s.append(" (");
        s.append(self.sql_name.as_str());
        s.append(") - ");
        let t = self.sql_type.describe();
        s.append(t.as_str());
        s.append(" ");
        let ghost head = s@;
        let ghost parts = self.constraints@.map_values(|k: FieldConstraint| k.spec_describe());
        let mut i: usize = 0;
        while i < self.constraints.len()
            invariant
                i <= self.constraints@.len(),
                parts == self.constraints@.map_values(|k: FieldConstraint| k.spec_describe()),
                s@ == head + joined(parts.subrange(0, i as int), " - "@),
            decreases self.constraints@.len() - i,
        {
            proof {
                assert(parts.subrange(0, i + 1).drop_last() =~= parts.subrange(0, i as int));
            }
            if i > 0 {
                s.append(" - ");
            }
            let d = self.constraints[i].describe();
            s.append(d.as_str());
            proof {
                if i == 0 {
                    assert(joined(parts.subrange(0, 0), " - "@) =~= Seq::<char>::empty());
                }
            }
            i = i + 1;
        }
        proof {
            assert(parts.subrange(0, parts.len() as int) =~= parts);
            assert(s@ =~= column_text(self@));
        }
        s
    }
}

} // verus!