use vstd::prelude::*;
use crate::column_definition::ColumnView;
use crate::derivation::{ConfigurationError, column_name_of, field_column, field_definition};
use crate::descriptors::{FieldDescriptor, StructDescriptor};
use crate::search::{any, first_index, is_first, lemma_first_index, lemma_first_index_at, lemma_first_index_none};
use crate::table_definition::{TableDefinition, TableView, by_sql_name, column_names_unique, insert_column};

verus! {

/// The columns that a struct's fields compile to, in declaration order:
/// fields whose type cannot be introspected are skipped, a column whose SQL
/// name is taken is dropped, and the first field whose type has no column
/// type makes the whole an error.
pub open spec fn compile_fields(fields: Seq<FieldDescriptor>) -> Result<Seq<ColumnView>, ConfigurationError>
    decreases fields.len(),
{
    if fields.len() == 0 {
        Ok(Seq::empty())
    } else {
        match compile_fields(fields.drop_last()) {
            Err(e) => Err(e),
            Ok(cols) => match field_column(fields.last(), (fields.len() - 1) as nat) {
                None => Ok(cols),
                Some(Err(e)) => Err(e),
                Some(Ok(c)) => Ok(insert_column(cols, c)),
            },
        }
    }
}

/// The SQL name of a struct's table: its rename, or else its native name.
pub open spec fn table_sql_name(d: StructDescriptor) -> Seq<char> {
    match d.table_name {
        Some(t) => t.sql_name@,
        None => d.name@,
    }
}

/// The test for a table with the given native name.
pub open spec fn by_rust_name(name: Seq<char>) -> spec_fn(TableView) -> bool {
    |t: TableView| t.rust_name == name
}

/// The test for a table with the given SQL name.
pub open spec fn by_table_sql_name(name: Seq<char>) -> spec_fn(TableView) -> bool {
    |t: TableView| t.sql_name == name
}

/// The test for a table with the given native or SQL name.
pub open spec fn by_table_name(name: Seq<char>) -> spec_fn(TableView) -> bool {
    |t: TableView| t.rust_name == name || t.sql_name == name
}

/// The position of the table found under `name`: the one with that native
/// name, or else the first whose SQL name it is; -1 when there is none.
pub open spec fn table_lookup(tables: Seq<TableView>, name: Seq<char>) -> int {
    let i = first_index(tables, by_rust_name(name));
    if i >= 0 {
        i
    } else {
        first_index(tables, by_table_name(name))
    }
}

/// The tables after `t` is stored under its native name: it takes the
/// place of a table with the same native name, or else goes last.
pub open spec fn store_table(tables: Seq<TableView>, t: TableView) -> Seq<TableView> {
    let i = first_index(tables, by_rust_name(t.rust_name));
    if i >= 0 {
        tables.update(i, t)
    } else {
        tables.push(t)
    }
}

/// What registering `d` returns, and the tables afterwards. A tuple struct,
/// or one whose SQL name a table has already, is not registered. A field
/// whose type has no column type makes it an error, and nothing is stored.
pub open spec fn registration(tables: Seq<TableView>, d: StructDescriptor) -> (
    Result<Option<Seq<char>>, ConfigurationError>,
    Seq<TableView>,
) {
    if !d.named_fields || any(tables, by_table_sql_name(table_sql_name(d))) {
        (Ok(None), tables)
    } else {
        match compile_fields(d.fields@) {
            Err(e) => (Err(e), tables),
            Ok(cols) => (
                Ok(Some(table_sql_name(d))),
                store_table(
                    tables,
                    TableView { rust_name: d.name@, sql_name: table_sql_name(d), columns: cols },
                ),
            ),
        }
    }
}

/// No two tables share a native name or an SQL name, and no table has two
/// columns with the same SQL name.
pub open spec fn tables_wf(tables: Seq<TableView>) -> bool {
    &&& forall|i: int, j: int|
        0 <= i < tables.len() && 0 <= j < tables.len() && i != j ==> (#[trigger] tables[i]).rust_name
            != (#[trigger] tables[j]).rust_name && tables[i].sql_name != tables[j].sql_name
    &&& forall|i: int| 0 <= i < tables.len() ==> column_names_unique(#[trigger] tables[i].columns)
}

proof fn lemma_compile_error_stays(fields: Seq<FieldDescriptor>, k: int)
    requires
        0 <= k <= fields.len(),
        compile_fields(fields.subrange(0, k)) is Err,
    ensures
        compile_fields(fields) == compile_fields(fields.subrange(0, k)),
    decreases fields.len() - k,
{
    if k < fields.len() {
        assert(fields.subrange(0, k + 1).drop_last() == fields.subrange(0, k));
        lemma_compile_error_stays(fields, k + 1);
    } else {
        assert(fields.subrange(0, k) == fields);
    }
}

/// Storing a table whose SQL name no table has keeps the names unique.
proof fn lemma_store_table_wf(tables: Seq<TableView>, t: TableView)
    requires
        tables_wf(tables),
        !any(tables, by_table_sql_name(t.sql_name)),
        column_names_unique(t.columns),
    ensures
        tables_wf(store_table(tables, t)),
{
    let k = first_index(tables, by_rust_name(t.rust_name));
    lemma_first_index(tables, by_rust_name(t.rust_name));
    let r = store_table(tables, t);
    assert forall|i: int, j: int|
        0 <= i < r.len() && 0 <= j < r.len() && i != j implies (#[trigger] r[i]).rust_name
        != (#[trigger] r[j]).rust_name && r[i].sql_name != r[j].sql_name by {
        if k >= 0 {
            if i == k {
                assert(!by_table_sql_name(t.sql_name)(tables[j]));
                assert(tables[k].rust_name == t.rust_name);
            } else if j == k {
                assert(!by_table_sql_name(t.sql_name)(tables[i]));
                assert(tables[k].rust_name == t.rust_name);
            }
        } else {
            if i == tables.len() {
                assert(!by_table_sql_name(t.sql_name)(tables[j]));
                assert(!by_rust_name(t.rust_name)(tables[j]));
            } else if j == tables.len() {
                assert(!by_table_sql_name(t.sql_name)(tables[i]));
                assert(!by_rust_name(t.rust_name)(tables[i]));
            }
        }
    }
    assert forall|i: int| 0 <= i < r.len() implies column_names_unique(#[trigger] r[i].columns) by {
        if (k >= 0 && i == k) || (k < 0 && i == tables.len()) {
            assert(r[i] == t);
        } else {
            assert(r[i] == tables[i]);
        }
    }
}

/// The SQL name of the column that a field compiles to.
pub open spec fn field_sql_name(f: FieldDescriptor) -> Seq<char> {
    column_name_of(f.name@, f.attributes@)
}

/// Compiling a struct's fields gives at most one column per field, and
/// exactly one per field, in order, when every field's type can be
/// introspected and no two fields have the same SQL name.
pub proof fn lemma_column_count(fields: Seq<FieldDescriptor>)
    ensures
        compile_fields(fields) matches Ok(cols) ==> cols.len() <= fields.len(),
        compile_fields(fields) is Ok && (forall|i: int| 0 <= i < fields.len() ==> (#[trigger] fields[i]).shape is Some)
            && (forall|i: int, j: int|
            0 <= i < fields.len() && 0 <= j < fields.len() && i != j ==> field_sql_name(#[trigger] fields[i])
                != field_sql_name(#[trigger] fields[j])) ==> compile_fields(fields)->Ok_0.len() == fields.len()
            && forall|i: int| 0 <= i < fields.len() ==> (#[trigger] compile_fields(fields)->Ok_0[i]).sql_name
            == field_sql_name(fields[i]),
    decreases fields.len(),
{
    if fields.len() > 0 {
        let init = fields.drop_last();
        lemma_column_count(init);
        if compile_fields(fields) is Ok && (forall|i: int| 0 <= i < fields.len() ==> (#[trigger] fields[i]).shape is Some)
            && (forall|i: int, j: int|
            0 <= i < fields.len() && 0 <= j < fields.len() && i != j ==> field_sql_name(#[trigger] fields[i])
                != field_sql_name(#[trigger] fields[j])) {
            assert forall|i: int| 0 <= i < init.len() implies (#[trigger] init[i]).shape is Some by {
                assert(init[i] == fields[i]);
            }
            assert forall|i: int, j: int|
                0 <= i < init.len() && 0 <= j < init.len() && i != j implies field_sql_name(#[trigger] init[i])
                != field_sql_name(#[trigger] init[j]) by {
                assert(init[i] == fields[i]);
                assert(init[j] == fields[j]);
            }
            let cols = compile_fields(init)->Ok_0;
            let last = fields.last();
            assert(last == fields[fields.len() - 1]);
            assert(last.shape is Some);
            assert forall|k: int| 0 <= k < cols.len() implies !by_sql_name(field_sql_name(last))(
                #[trigger] cols[k],
            ) by {
                assert(init[k] == fields[k]);
                assert(field_sql_name(fields[k]) != field_sql_name(fields[fields.len() - 1]));
            }
            lemma_first_index_none(cols, by_sql_name(field_sql_name(last)));
            let r = compile_fields(fields)->Ok_0;
            assert forall|i: int| 0 <= i < fields.len() implies (#[trigger] r[i]).sql_name == field_sql_name(
                fields[i],
            ) by {
                if i < init.len() {
                    assert(init[i] == fields[i]);
                }
            }
        }
    }
}

/// After a registration that returns a name, the table is found under the
/// native name; it holds the compiled columns, no more than there are
/// fields.
pub proof fn lemma_registered_table(tables: Seq<TableView>, d: StructDescriptor)
    requires
        registration(tables, d).0 matches Ok(Some(_)),
    ensures
        ({
            let after = registration(tables, d).1;
            let j = table_lookup(after, d.name@);
            &&& 0 <= j < after.len()
            &&& after[j].rust_name == d.name@
            &&& after[j].sql_name == table_sql_name(d)
            &&& compile_fields(d.fields@) == Ok::<Seq<ColumnView>, ConfigurationError>(after[j].columns)
            &&& after[j].columns.len() <= d.fields@.len()
        }),
{
    let cols = compile_fields(d.fields@)->Ok_0;
    let t = TableView { rust_name: d.name@, sql_name: table_sql_name(d), columns: cols };
    let after = registration(tables, d).1;
    lemma_column_count(d.fields@);
    let k = first_index(tables, by_rust_name(d.name@));
    lemma_first_index(tables, by_rust_name(d.name@));
    if k >= 0 {
        assert forall|i: int| 0 <= i < k implies !(#[trigger] by_rust_name(d.name@)(after[i])) by {
            assert(after[i] == tables[i]);
        }
        assert(is_first(after, by_rust_name(d.name@), k));
        lemma_first_index_at(after, by_rust_name(d.name@), k);
    } else {
        assert forall|i: int| 0 <= i < tables.len() implies !(#[trigger] by_rust_name(d.name@)(after[i])) by {
            assert(after[i] == tables[i]);
        }
        assert(is_first(after, by_rust_name(d.name@), tables.len() as int));
        lemma_first_index_at(after, by_rust_name(d.name@), tables.len() as int);
    }
}

/// Registering a struct a second time, after a first registration that
/// returned a name, returns nothing and leaves the tables as they are.
pub proof fn lemma_register_twice(tables: Seq<TableView>, d: StructDescriptor)
    requires
        registration(tables, d).0 matches Ok(Some(_)),
    ensures
        registration(registration(tables, d).1, d) == (
            Ok::<Option<Seq<char>>, ConfigurationError>(None),
            registration(tables, d).1,
        ),
{
    let after = registration(tables, d).1;
    lemma_registered_table(tables, d);
    let j = table_lookup(after, d.name@);
    assert(by_table_sql_name(table_sql_name(d))(after[j]));
}

/// Looking a table up by its native name and by its SQL name finds the same
/// table, unless another table's native name is that SQL name.
pub proof fn lemma_lookup_both_names(tables: Seq<TableView>, i: int)
    requires
        tables_wf(tables),
        0 <= i < tables.len(),
        forall|j: int| 0 <= j < tables.len() && j != i ==> (#[trigger] tables[j]).rust_name != tables[i].sql_name,
    ensures
        table_lookup(tables, tables[i].rust_name) == i,
        table_lookup(tables, tables[i].sql_name) == i,
{
    let t = tables[i];
    assert forall|j: int| 0 <= j < i implies !(#[trigger] by_rust_name(t.rust_name)(tables[j])) by {}
    lemma_first_index_at(tables, by_rust_name(t.rust_name), i);
    if t.rust_name == t.sql_name {
        lemma_first_index_at(tables, by_rust_name(t.sql_name), i);
    } else {
        assert forall|j: int| 0 <= j < tables.len() implies !(#[trigger] by_rust_name(t.sql_name)(tables[j])) by {}
        lemma_first_index_none(tables, by_rust_name(t.sql_name));
        assert forall|j: int| 0 <= j < i implies !(#[trigger] by_table_name(t.sql_name)(tables[j])) by {}
        lemma_first_index_at(tables, by_table_name(t.sql_name), i);
    }
}

/// The catalogue of tables, by native type name.
#[derive(Debug)]
pub struct ErmTypesRegistry {
    tables: Vec<TableDefinition>,
}

impl View for ErmTypesRegistry {
    type V = Seq<TableView>;

    closed spec fn view(&self) -> Seq<TableView> {
        self.tables@.map_values(|t: TableDefinition| t@)
    }
}

impl ErmTypesRegistry {
    pub open spec fn wf(&self) -> bool {
        tables_wf(self@)
    }

    /// An empty registry.
    pub fn new() -> (r: ErmTypesRegistry)
        ensures
            r@ == Seq::<TableView>::empty(),
            r.wf(),
    {
        let r = ErmTypesRegistry { tables: Vec::new() };
        proof {
            assert(r@ =~= Seq::<TableView>::empty());
        }
        r
    }

    /// The number of tables.
    pub fn no_tables(&self) -> (r: usize)
        ensures
            r == self@.len(),
    {
        self.tables.len()
    }

    /// The position of the table with the given native name.
    fn position_of_rust_name(&self, name: &String) -> (r: Option<usize>)
        ensures
            r matches Some(i) ==> is_first(self@, by_rust_name(name@), i as int)
                && first_index(self@, by_rust_name(name@)) == i,
            r is None ==> !any(self@, by_rust_name(name@)) && first_index(self@, by_rust_name(name@)) == -1,
    {
        let mut i: usize = 0;
        while i < self.tables.len()
            invariant
                i <= self@.len(),
                forall|j: int| 0 <= j < i ==> !(#[trigger] by_rust_name(name@)(self@[j])),
            decreases self@.len() - i,
        {
            if self.tables[i].rust_name == *name {
                proof {
                    assert(self@[i as int] == self.tables@[i as int]@);
                    lemma_first_index_at(self@, by_rust_name(name@), i as int);
                }
                return Some(i);
            }
            i = i + 1;
        }
        proof {
            lemma_first_index_none(self@, by_rust_name(name@));
        }
        None
    }

    /// The position of the table with the given SQL name.
    fn position_of_sql_name(&self, name: &String) -> (r: Option<usize>)
        ensures
            r matches Some(i) ==> is_first(self@, by_table_sql_name(name@), i as int)
                && first_index(self@, by_table_sql_name(name@)) == i,
            r is None ==> !any(self@, by_table_sql_name(name@)) && first_index(self@, by_table_sql_name(name@)) == -1,
    {
        let mut i: usize = 0;
        while i < self.tables.len()
            invariant
                i <= self@.len(),
                forall|j: int| 0 <= j < i ==> !(#[trigger] by_table_sql_name(name@)(self@[j])),
            decreases self@.len() - i,
        {
            if self.tables[i].sql_name == *name {
                proof {
                    assert(self@[i as int] == self.tables@[i as int]@);
                    lemma_first_index_at(self@, by_table_sql_name(name@), i as int);
                }
                return Some(i);
            }
            i = i + 1;
        }
        proof {
            lemma_first_index_none(self@, by_table_sql_name(name@));
        }
        None
    }

    /// The table with the given native name, or else the first table whose
    /// SQL name it is.
    pub fn get_table_definition(&self, name: &str) -> (r: Option<&TableDefinition>)
        ensures
            r is Some <==> table_lookup(self@, name@) >= 0,
            r matches Some(t) ==> t@ == self@[table_lookup(self@, name@)],
    {
        let key = name.to_owned();
        if let Some(i) = self.position_of_rust_name(&key) {
            return Some(&self.tables[i]);
        }
        let mut i: usize = 0;
        while i < self.tables.len()
            invariant
                i <= self@.len(),
                key@ == name@,
                first_index(self@, by_rust_name(key@)) == -1,
                forall|j: int| 0 <= j < i ==> !(#[trigger] by_table_name(key@)(self@[j])),
            decreases self@.len() - i,
        {
            if self.tables[i].rust_name == key || self.tables[i].sql_name == key {
                proof {
                    lemma_first_index_at(self@, by_table_name(key@), i as int);
                }
                return Some(&self.tables[i]);
            }
            i = i + 1;
        }
        proof {
            lemma_first_index_none(self@, by_table_name(key@));
        }
        None
    }
    /// Registers a struct type: compiles its fields into a table, stores
    /// the table under the native name and returns the table's SQL name.
    /// A tuple struct, or one whose SQL name a table has already, is left
    /// out (`Ok(None)`); a field whose type has no column type is an error.
    /// Either way the registry is then unchanged.
    pub fn register_type(&mut self, d: &StructDescriptor) -> (r: Result<Option<String>, ConfigurationError>)
        ensures
            final(self)@ == registration(old(self)@, *d).1,
            match r {
                Ok(Some(n)) => registration(old(self)@, *d).0 == Ok::<Option<Seq<char>>, ConfigurationError>(Some(n@)),
                Ok(None) => registration(old(self)@, *d).0 == Ok::<Option<Seq<char>>, ConfigurationError>(None),
                Err(e) => registration(old(self)@, *d).0 == Err::<Option<Seq<char>>, ConfigurationError>(e),
            },
            old(self).wf() ==> final(self).wf(),
    {
        if !d.named_fields {
            return Ok(None);
        }
        let sql_name = match &d.table_name {
            Some(t) => t.sql_name.clone(),
            None => d.name.clone(),
        };
        if self.position_of_sql_name(&sql_name).is_some() {
            return Ok(None);
        }
        let mut table = TableDefinition {
            rust_name: d.name.clone(),
            sql_name: sql_name.clone(),
            fields: Vec::new(),
        };
        proof {
            assert(table@.columns =~= Seq::<ColumnView>::empty());
            assert(d.fields@.subrange(0, 0) =~= Seq::<FieldDescriptor>::empty());
        }
        let ghost fields = d.fields@;
        let mut i: usize = 0;
        while i < d.fields.len()
            invariant
                i <= fields.len(),
                fields == d.fields@,
                self@ == old(self)@,
                d.named_fields,
                !any(self@, by_table_sql_name(table_sql_name(*d))),
                compile_fields(fields.subrange(0, i as int)) == Ok::<Seq<ColumnView>, ConfigurationError>(
                    table@.columns,
                ),
                table.wf(),
                table.rust_name@ == d.name@,
                table.sql_name@ == table_sql_name(*d),
            decreases fields.len() - i,
        {
            proof {
                assert(fields.subrange(0, i + 1).drop_last() == fields.subrange(0, i as int));
                assert(fields.subrange(0, i + 1).last() == fields[i as int]);
            }
            match field_definition(&d.fields[i], i) {
                Err(e) => {
                    proof {
                        let next = fields.subrange(0, i + 1);
                        assert(field_column(next.last(), (next.len() - 1) as nat) == Some(
                            Err::<ColumnView, ConfigurationError>(e),
                        ));
                        assert(compile_fields(next) == Err::<Seq<ColumnView>, ConfigurationError>(e));
                        lemma_compile_error_stays(fields, i + 1);
                    }
                    return Err(e);
                },
                Ok(None) => {},
                Ok(Some(col)) => table.add(col),
            }
            i = i + 1;
        }
        proof {
            assert(fields.subrange(0, fields.len() as int) == fields);
        }
        let ghost before = self@;
        let ghost tv = table@;
        proof {
            if tables_wf(before) {
                lemma_store_table_wf(before, tv);
            }
        }
        match self.position_of_rust_name(&table.rust_name) {
            Some(k) => {
                self.tables.set(k, table);
                proof {
                    assert(self@ =~= before.update(k as int, tv));
                }
            },
            None => {
                self.tables.push(table);
                proof {
                    assert(self@ =~= before.push(tv));
                }
            },
        }
        Ok(Some(sql_name))
    }
}

impl Default for ErmTypesRegistry {
    /// An empty registry.
    fn default() -> (r: ErmTypesRegistry)
        ensures
            r@ == Seq::<TableView>::empty(),
            r.wf(),
    {
        ErmTypesRegistry::new()
    }
}

} // verus!
