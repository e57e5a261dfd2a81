use vstd::prelude::*;
use vstd::string::StringExecFns;
use crate::text::joined;
use crate::column_definition::{ColumnDefinition, ColumnView, column_text};
use crate::search::{any, first_index, is_first, lemma_first_index_at, lemma_first_index_none};

verus! {

/// Renames a table.
#[derive(Debug, Default, Clone)]
pub struct TableName {
    pub sql_name: String,
}

impl TableName {
    pub fn new(name: &str) -> (r: Self)
        ensures
            r.sql_name@ == name@,
    {
        TableName { sql_name: name.to_owned() }
    }
}

/// The schema derived from one struct type: its columns in the order they
/// were added, no two with the same SQL name.
#[derive(Debug)]
pub struct TableDefinition {
    pub rust_name: String,
    pub sql_name: String,
    pub fields: Vec<ColumnDefinition>,
}

/// What a table holds, as mathematical values.
pub struct TableView {
    pub rust_name: Seq<char>,
    pub sql_name: Seq<char>,
    pub columns: Seq<ColumnView>,
}

impl View for TableDefinition {
    type V = TableView;

    open spec fn view(&self) -> TableView {
        TableView {
            rust_name: self.rust_name@,
            sql_name: self.sql_name@,
            columns: self.fields@.map_values(|c: ColumnDefinition| c@),
        }
    }
}

/// The test for a column with the given SQL name.
pub open spec fn by_sql_name(name: Seq<char>) -> spec_fn(ColumnView) -> bool {
    |c: ColumnView| c.sql_name == name
}

/// The test for a column with the given native or SQL name.
pub open spec fn by_either_name(name: Seq<char>) -> spec_fn(ColumnView) -> bool {
    |c: ColumnView| c.rust_name == name || c.sql_name == name
}

/// No two columns share an SQL name.
pub open spec fn column_names_unique(cols: Seq<ColumnView>) -> bool {
    forall|i: int, j: int|
        0 <= i < cols.len() && 0 <= j < cols.len() && i != j ==> (#[trigger] cols[i]).sql_name
            != (#[trigger] cols[j]).sql_name
}

/// The columns after `c` is offered: a column whose SQL name is taken is
/// dropped, the first one stays.
pub open spec fn insert_column(cols: Seq<ColumnView>, c: ColumnView) -> Seq<ColumnView> {
    if any(cols, by_sql_name(c.sql_name)) {
        cols
    } else {
        cols.push(c)
    }
}

/// The position of the column found under `name`: the one with that SQL
/// name, or else the first whose native name it is; -1 when there is none.
pub open spec fn column_lookup(cols: Seq<ColumnView>, name: Seq<char>) -> int {
    let i = first_index(cols, by_sql_name(name));
    if i >= 0 {
        i
    } else {
        first_index(cols, by_either_name(name))
    }
}

/// A table as text: a header line with its names, then one line per
/// column, each indented by a tab.
pub open spec fn table_text(t: TableView) -> Seq<char> {
    "Table: "@ + t.rust_name + " ("@ + t.sql_name + ")\n"@ + joined(
        t.columns.map_values(|c: ColumnView| "\t"@ + column_text(c)),
        "\n"@,
    )
}

impl TableDefinition {
    pub open spec fn wf(&self) -> bool {
        column_names_unique(self@.columns)
    }

    /// An empty table with the given native and SQL name.
    pub fn new(rst_name: &str, sql_name: &str) -> (r: TableDefinition)
        ensures
            r@ == (TableView { rust_name: rst_name@, sql_name: sql_name@, columns: Seq::empty() }),
            r.wf(),
    {
        let r = TableDefinition {
            rust_name: rst_name.to_owned(),
            sql_name: sql_name.to_owned(),
            fields: Vec::new(),
        };
        proof {
            assert(r@.columns =~= Seq::empty());
        }
        r
    }

    /// The position of the column with the given SQL name.
    fn position_of_sql_name(&self, name: &String) -> (r: Option<usize>)
        ensures
            r matches Some(i) ==> is_first(self@.columns, by_sql_name(name@), i as int)
                && first_index(self@.columns, by_sql_name(name@)) == i,
            r is None ==> !any(self@.columns, by_sql_name(name@))
                && first_index(self@.columns, by_sql_name(name@)) == -1,
    {
        let mut i: usize = 0;
        while i < self.fields.len()
            invariant
                i <= self@.columns.len(),
                forall|j: int| 0 <= j < i ==> !(#[trigger] by_sql_name(name@)(self@.columns[j])),
            decreases self@.columns.len() - i,
        {
            if self.fields[i].sql_name == *name {
                proof {
                    lemma_first_index_at(self@.columns, by_sql_name(name@), i as int);
                }
                return Some(i);
            }
            i = i + 1;
        }
        proof {
            lemma_first_index_none(self@.columns, by_sql_name(name@));
        }
        None
    }

    /// Adds a column, unless one with the same SQL name is there already.
    pub fn add(&mut self, column: ColumnDefinition)
        ensures
            final(self)@ == (TableView { columns: insert_column(old(self)@.columns, column@), ..old(self)@ }),
            old(self).wf() ==> final(self).wf(),
    {
        if self.position_of_sql_name(&column.sql_name).is_some() {
            return;
        }
        let ghost cols = self@.columns;
        let ghost c = column@;
        self.fields.push(column);
        proof {
            assert(self@.columns =~= cols.push(c));
            assert forall|i: int, j: int|
                0 <= i < cols.len() + 1 && 0 <= j < cols.len() + 1 && i != j
                    && column_names_unique(cols) implies (#[trigger] cols.push(c)[i]).sql_name
                != (#[trigger] cols.push(c)[j]).sql_name by {
                if i == cols.len() {
                    assert(!by_sql_name(c.sql_name)(cols[j]));
                } else if j == cols.len() {
                    assert(!by_sql_name(c.sql_name)(cols[i]));
                }
            }
        }
    }

    /// The number of columns.
    pub fn no_fields(&self) -> (r: usize)
        ensures
            r == self@.columns.len(),
    {
        self.fields.len()
    }

    /// The column with the given SQL name, or else the first column whose
    /// native name it is.
    pub fn get(&self, column: &str) -> (r: Option<&ColumnDefinition>)
        ensures
            r is Some <==> column_lookup(self@.columns, column@) >= 0,
            r matches Some(c) ==> *c == self.fields@[column_lookup(self@.columns, column@)],
    {
        let name = column.to_owned();
        if let Some(i) = self.position_of_sql_name(&name) {
            return Some(&self.fields[i]);
        }
        let mut i: usize = 0;
        while i < self.fields.len()
            invariant
                i <= self@.columns.len(),
                name@ == column@,
                first_index(self@.columns, by_sql_name(name@)) == -1,
                forall|j: int| 0 <= j < i ==> !(#[trigger] by_either_name(name@)(self@.columns[j])),
            decreases self@.columns.len() - i,
        {
            if self.fields[i].rust_name == name || self.fields[i].sql_name == name {
                proof {
                    lemma_first_index_at(self@.columns, by_either_name(name@), i as int);
                }
                return Some(&self.fields[i]);
            }
            i = i + 1;
        }
        proof {
            lemma_first_index_none(self@.columns, by_either_name(name@));
        }
        None
    }
    /// The table as text: its names, then one line per column.
    pub fn describe(&self) -> (r: String)
        ensures
            r@ == table_text(self@),
    {
        let mut s = String::new();
        s.append("Table: ");
        s.append(self.rust_name.as_str());
        s.append(" (");
        s.append(self.sql_name.as_str());
        s.append(")\n");
        let ghost head = s@;
        let ghost parts = self@.columns.map_values(|c: ColumnView| "\t"@ + column_text(c));
        let mut i: usize = 0;
        while i < self.fields.len()
            invariant
                i <= self.fields@.len(),
                parts == self@.columns.map_values(|c: ColumnView| "\t"@ + column_text(c)),
                s@ == head + joined(parts.subrange(0, i as int), "\n"@),
            decreases self.fields@.len() - i,
        {
            proof {
                assert(parts.subrange(0, i + 1).drop_last() =~= parts.subrange(0, i as int));
            }
            if i > 0 {
                s.append("\n");
            }
            s.append("\t");
            let d = self.fields[i].describe();
            s.append(d.as_str());
            proof {
                if i == 0 {
                    assert(joined(parts.subrange(0, 0), "\n"@) =~= Seq::<char>::empty());
                }
            }
            i = i + 1;
        }
        proof {
            assert(parts.subrange(0, parts.len() as int) =~= parts);
            assert(s@ =~= table_text(self@));
        }
        s
    }
}

} // verus!