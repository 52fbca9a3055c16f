//! The logical schema: the engine's in-memory model of table and column
//! shape, rebuilt by replaying `update_schema` across the ordered action
//! list. It is distinct from the physical shape in the store.

use vstd::prelude::*;

use crate::errors::SchemaError;

verus! {

/// Mathematical model of a [`Column`].
pub struct ColumnView {
    pub name: Seq<char>,
    pub real_name: Option<Seq<char>>,
    pub data_type: Seq<char>,
    pub nullable: bool,
}

/// Mathematical model of a [`Table`].
pub struct TableView {
    pub name: Seq<char>,
    pub columns: Seq<ColumnView>,
    pub primary_key: Seq<Seq<char>>,
}

/// A column of the logical schema: a logical `name` (unique per table), an
/// optional `real_name` (the physical name when it differs, e.g. during a
/// rename in progress), an opaque `data_type` token, and a `nullable` flag.
#[derive(Debug)]
pub struct Column {
    pub name: String,
    pub real_name: Option<String>,
    pub data_type: String,
    pub nullable: bool,
}

impl View for Column {
    type V = ColumnView;

    open spec fn view(&self) -> ColumnView {
        ColumnView {
            name: self.name@,
            real_name: match self.real_name {
                Option::Some(s) => Option::Some(s@),
                Option::None => Option::None,
            },
            data_type: self.data_type@,
            nullable: self.nullable,
        }
    }
}

/// A table of the logical schema: a name (unique in the schema), an ordered
/// list of columns, and the ordered list of primary-key column names.
#[derive(Debug)]
pub struct Table {
    pub name: String,
    pub columns: Vec<Column>,
    pub primary_key: Vec<String>,
}

impl View for Table {
    type V = TableView;

    open spec fn view(&self) -> TableView {
        TableView {
            name: self.name@,
            columns: self.columns@.map_values(|c: Column| c@),
            primary_key: self.primary_key@.map_values(|n: String| n@),
        }
    }
}

/// The index of the first occurrence of `name` in `names`, or -1 if absent.
pub open spec fn name_index(names: Seq<Seq<char>>, name: Seq<char>) -> int
    decreases names.len(),
{
    if names.len() == 0 {
        -1
    } else if names[0] == name {
        0
    } else {
        let rest: int = name_index(names.drop_first(), name);
        if rest == -1 {
            -1
        } else {
            rest + 1
        }
    }
}

/// The logical names of a table's columns, in declared order.
pub open spec fn column_names(t: TableView) -> Seq<Seq<char>> {
    t.columns.map_values(|c: ColumnView| c.name)
}

/// The names of the schema's tables, in insertion order.
pub open spec fn table_names(s: Seq<TableView>) -> Seq<Seq<char>> {
    s.map_values(|t: TableView| t.name)
}

/// Whether the schema holds a table of the given name.
pub open spec fn has_table(s: Seq<TableView>, name: Seq<char>) -> bool {
    name_index(table_names(s), name) >= 0
}

/// The table of the given name; meaningful only when `has_table` holds.
pub open spec fn table_at(s: Seq<TableView>, name: Seq<char>) -> TableView {
    s[name_index(table_names(s), name)]
}

/// Whether the table holds a column of the given logical name.
pub open spec fn has_column(t: TableView, name: Seq<char>) -> bool {
    name_index(column_names(t), name) >= 0
}

/// `t` with the first column of the given name removed.
pub open spec fn remove_column_view(t: TableView, name: Seq<char>) -> TableView {
    TableView { columns: t.columns.remove(name_index(column_names(t), name)), ..t }
}

/// A scan that saw no match up to the end finds none.
proof fn lemma_name_index_absent(names: Seq<Seq<char>>, name: Seq<char>)
    requires
        forall|j: int| 0 <= j < names.len() ==> names[j] != name,
    ensures
        name_index(names, name) == -1,
    decreases names.len(),
{
    if names.len() > 0 {
        assert(forall|j: int|
            0 <= j < names.drop_first().len() ==> names.drop_first()[j] == names[j + 1]);
        lemma_name_index_absent(names.drop_first(), name);
    }
}

/// A scan that saw no match before position `i` and a match at `i` finds `i`.
proof fn lemma_name_index_found(names: Seq<Seq<char>>, name: Seq<char>, i: int)
    requires
        0 <= i < names.len(),
        names[i] == name,
        forall|j: int| 0 <= j < i ==> names[j] != name,
    ensures
        name_index(names, name) == i,
    decreases names.len(),
{
    if i > 0 {
        assert(forall|j: int|
            0 <= j < names.drop_first().len() ==> names.drop_first()[j] == names[j + 1]);
        lemma_name_index_found(names.drop_first(), name, i - 1);
    }
}

/// A scan that found nothing means no position matches.
proof fn lemma_name_index_absent_all(names: Seq<Seq<char>>, name: Seq<char>)
    requires
        name_index(names, name) < 0,
    ensures
        forall|j: int| 0 <= j < names.len() ==> names[j] != name,
    decreases names.len(),
{
    if names.len() > 0 {
        lemma_name_index_absent_all(names.drop_first(), name);
        assert forall|j: int| 0 <= j < names.len() implies names[j] != name by {
            if j > 0 {
                assert(names.drop_first()[j - 1] == names[j]);
            }
        }
    }
}

/// The logical schema: a mapping from table name to table, with unique
/// table names, owned by the orchestrator for one migration-application
/// pass.
#[derive(Debug)]
pub struct Schema {
    tables: Vec<Table>,
}

impl View for Schema {
    type V = Seq<TableView>;

    closed spec fn view(&self) -> Seq<TableView> {
        self.tables@.map_values(|t: Table| t@)
    }
}

impl Schema {
    /// Table names are unique, so a name denotes at most one table.
    pub open spec fn wf(&self) -> bool {
        forall|i: int, j: int|
            0 <= i < j < self@.len() ==> self@[i].name != self@[j].name
    }

    /// An empty schema.
    pub fn new() -> (s: Schema)
        ensures
            s@ == Seq::<TableView>::empty(),
            s.wf(),
    {
        let s = Schema { tables: Vec::new() };
        proof {
            assert(s@ =~= Seq::<TableView>::empty());
        }
        s
    }

    /// The index of the table of the given name, or `None` if absent.
    fn index_of(&self, name: &String) -> (r: Option<usize>)
        ensures
            match r {
                Option::Some(i) => i < self@.len() && name_index(table_names(self@), name@)
                    == i as int,
                Option::None => !has_table(self@, name@),
            },
    {
        let mut i: usize = 0;
        while i < self.tables.len()
            invariant
                0 <= i <= self.tables.len(),
                forall|j: int| 0 <= j < i ==> self@[j].name != name@,
            decreases self.tables.len() - i,
        {
            if self.tables[i].name == *name {
                proof {
                    assert(self@[i as int] == self.tables@[i as int]@);
                    assert(table_names(self@)[i as int] == self@[i as int].name);
                    assert forall|j: int| 0 <= j < i as int implies table_names(self@)[j]
                        != name@ by {
                        assert(table_names(self@)[j] == self@[j].name);
                    }
                    lemma_name_index_found(table_names(self@), name@, i as int);
                }
                return Option::Some(i);
            }
            proof {
                assert(self@[i as int] == self.tables@[i as int]@);
            }
            i = i + 1;
        }
        proof {
            assert forall|j: int| 0 <= j < table_names(self@).len() implies table_names(self@)[j]
                != name@ by {
                assert(table_names(self@)[j] == self@[j].name);
            }
            lemma_name_index_absent(table_names(self@), name@);
        }
        Option::None
    }

    /// Looks up the table of the given name.
    pub fn find_table(&self, name: &String) -> (r: Result<&Table, SchemaError>)
        ensures
            match r {
                Ok(t) => has_table(self@, name@) && t@ == table_at(self@, name@),
                Err(e) => e == SchemaError::NotFound && !has_table(self@, name@),
            },
    {
        match self.index_of(name) {
            Option::Some(i) => Ok(&self.tables[i]),
            Option::None => Err(SchemaError::NotFound),
        }
    }

    /// Inserts a new table; rejects a name already present.
    pub fn add_table(&mut self, table: Table) -> (r: Result<(), SchemaError>)
        requires
            old(self).wf(),
        ensures
            final(self).wf(),
            match r {
                Ok(()) => !has_table(old(self)@, table@.name) && final(self)@ == old(self)@.push(
                    table@,
                ),
                Err(e) => e == SchemaError::Conflict && has_table(old(self)@, table@.name)
                    && final(self)@ == old(self)@,
            },
    {
        match self.index_of(&table.name) {
            Option::Some(_) => Err(SchemaError::Conflict),
            Option::None => {
                let ghost pre: Seq<TableView> = self@;
                let ghost tv: TableView = table@;
                self.tables.push(table);
                proof {
                    assert(self@ =~= pre.push(tv));
                    lemma_name_index_absent_all(table_names(pre), tv.name);
                    assert forall|i: int, j: int|
                        0 <= i < j < self@.len() implies self@[i].name != self@[j].name by {
                        if j == self@.len() - 1 {
                            assert(self@[i] == pre[i]);
                            assert(table_names(pre)[i] == pre[i].name);
                            assert(self@[j] == tv);
                        } else {
                            assert(self@[i] == pre[i]);
                            assert(self@[j] == pre[j]);
                            assert(pre[i].name != pre[j].name);
                        }
                    }
                }
                Ok(())
            },
        }
    }

    /// Removes the named column from the named table; `NotFound` if either
    /// the table or the column is absent from the logical schema.
    pub fn remove_column(&mut self, table: &String, column: &String) -> (r: Result<
        (),
        SchemaError,
    >)
        requires
            old(self).wf(),
        ensures
            final(self).wf(),
            match r {
                Ok(()) => has_table(old(self)@, table@) && has_column(
                    table_at(old(self)@, table@),
                    column@,
                ) && final(self)@ == old(self)@.update(
                    name_index(table_names(old(self)@), table@),
                    remove_column_view(table_at(old(self)@, table@), column@),
                ),
                Err(e) => e == SchemaError::NotFound && final(self)@ == old(self)@ && !(has_table(
                    old(self)@,
                    table@,
                ) && has_column(table_at(old(self)@, table@), column@)),
            },
    {
        let ti = match self.index_of(table) {
            Option::Some(i) => i,
            Option::None => {
                return Err(SchemaError::NotFound);
            },
        };
        let ghost pre: Seq<TableView> = self@;
        proof {
            assert(pre[ti as int] == self.tables@[ti as int]@);
            assert(table_at(pre, table@) == pre[ti as int]);
        }
        let r = self.tables[ti].remove_column(column);
        let ghost tv: TableView = self.tables@[ti as int]@;
        proof {
            assert(self@ =~= pre.update(ti as int, tv));
            assert forall|i: int, j: int|
                0 <= i < j < self@.len() implies self@[i].name != self@[j].name by {
                assert(pre[i].name != pre[j].name);
            }
            if r is Err {
                assert(self@ =~= pre);
            }
        }
        match r {
            Ok(()) => Ok(()),
            Err(e) => Err(e),
        }
    }
}

impl Table {
    /// A table with the given name and no columns or primary key yet.
    pub fn new(name: String) -> (t: Table)
        ensures
            t@.name == name@,
            t@.columns == Seq::<ColumnView>::empty(),
            t@.primary_key == Seq::<Seq<char>>::empty(),
    {
        let t = Table { name, columns: Vec::new(), primary_key: Vec::new() };
        proof {
            assert(t@.columns =~= Seq::<ColumnView>::empty());
            assert(t@.primary_key =~= Seq::<Seq<char>>::empty());
        }
        t
    }

    /// Appends a column in declared order.
    pub fn add_column(&mut self, column: Column) -> (r: ())
        ensures
            final(self)@ == (TableView { columns: old(self)@.columns.push(column@), ..old(self)@ }),
    {
        let ghost cv: ColumnView = column@;
        self.columns.push(column);
        proof {
            assert(self@.columns =~= old(self)@.columns.push(cv));
        }
    }

    /// Removes the column of the given logical name; `NotFound` if absent.
    /// Removing a column that the primary key lists is permitted, and the
    /// primary-key list is left as it is.
    pub fn remove_column(&mut self, name: &String) -> (r: Result<(), SchemaError>)
        ensures
            final(self)@.name == old(self)@.name,
            final(self)@.primary_key == old(self)@.primary_key,
            match r {
                Ok(()) => has_column(old(self)@, name@) && final(self)@ == remove_column_view(
                    old(self)@,
                    name@,
                ),
                Err(e) => e == SchemaError::NotFound && !has_column(old(self)@, name@)
                    && final(self)@ == old(self)@,
            },
    {
        let mut i: usize = 0;
        while i < self.columns.len()
            invariant
                0 <= i <= self.columns.len(),
                forall|j: int| 0 <= j < i ==> old(self)@.columns[j].name != name@,
                *self == *old(self),
            decreases self.columns.len() - i,
        {
            if self.columns[i].name == *name {
                proof {
                    assert(self@.columns[i as int] == self.columns@[i as int]@);
                    assert(column_names(self@)[i as int] == self@.columns[i as int].name);
                    assert forall|j: int| 0 <= j < i as int implies column_names(self@)[j]
                        != name@ by {
                        assert(column_names(self@)[j] == self@.columns[j].name);
                    }
                    lemma_name_index_found(column_names(self@), name@, i as int);
                }
                let ghost pre: TableView = self@;
                self.columns.remove(i);
                proof {
                    assert(self@.columns =~= pre.columns.remove(i as int));
                }
                return Ok(());
            }
            proof {
                assert(self@.columns[i as int] == self.columns@[i as int]@);
            }
            i = i + 1;
        }
        proof {
            assert forall|j: int| 0 <= j < column_names(self@).len() implies column_names(self@)[j]
                != name@ by {
                assert(column_names(self@)[j] == self@.columns[j].name);
            }
            lemma_name_index_absent(column_names(self@), name@);
        }
        Err(SchemaError::NotFound)
    }
}

} // verus!
