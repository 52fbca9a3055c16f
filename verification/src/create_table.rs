//! The additive action: create a new table.
//!
//! A new table cannot conflict with application code that is unaware of
//! it, so `run` performs the entire change at once, `complete` has nothing
//! left to do, and `abort` drops the table again.

use vstd::prelude::*;

use crate::conn::Conn;
use crate::errors::{MigrationError, SchemaError};
use crate::schema;
use crate::schema::{has_table, Schema, TableView};
use crate::text::{join, join_with, quote_all, quote_ident, quote_idents, quoted};

verus! {

/// Mathematical model of a [`Column`] description.
pub struct ColumnView {
    pub name: Seq<char>,
    pub data_type: Seq<char>,
    pub nullable: bool,
    pub default: Option<Seq<char>>,
}

/// Mathematical model of a [`ForeignKey`].
pub struct ForeignKeyView {
    pub columns: Seq<Seq<char>>,
    pub referenced_table: Seq<char>,
    pub referenced_columns: Seq<Seq<char>>,
}

/// Mathematical model of a [`CreateTable`] action.
pub struct CreateTableView {
    pub name: Seq<char>,
    pub columns: Seq<ColumnView>,
    pub primary_key: Seq<Seq<char>>,
    pub foreign_keys: Seq<ForeignKeyView>,
}

/// One column of a table description: name, opaque data type token,
/// nullability, and an optional DEFAULT literal.
#[derive(Debug)]
pub struct Column {
    pub name: String,
    pub data_type: String,
    pub nullable: bool,
    pub default: Option<String>,
}

impl View for Column {
    type V = ColumnView;

    open spec fn view(&self) -> ColumnView {
        ColumnView {
            name: self.name@,
            data_type: self.data_type@,
            nullable: self.nullable,
            default: match self.default {
                Option::Some(d) => Option::Some(d@),
                Option::None => Option::None,
            },
        }
    }
}

/// A foreign key declared on a table description: local columns, the
/// referenced table, and the referenced columns (equal-length lists). It
/// drives DDL generation only and is not retained in the logical schema.
#[derive(Debug)]
pub struct ForeignKey {
    pub columns: Vec<String>,
    pub referenced_table: String,
    pub referenced_columns: Vec<String>,
}

impl View for ForeignKey {
    type V = ForeignKeyView;

    open spec fn view(&self) -> ForeignKeyView {
        ForeignKeyView {
            columns: self.columns@.map_values(|n: String| n@),
            referenced_table: self.referenced_table@,
            referenced_columns: self.referenced_columns@.map_values(|n: String| n@),
        }
    }
}

/// Creates a table with the given columns, primary key and foreign keys.
#[derive(Debug)]
pub struct CreateTable {
    pub name: String,
    pub columns: Vec<Column>,
    pub primary_key: Vec<String>,
    pub foreign_keys: Vec<ForeignKey>,
}

impl View for CreateTable {
    type V = CreateTableView;

    open spec fn view(&self) -> CreateTableView {
        CreateTableView {
            name: self.name@,
            columns: self.columns@.map_values(|c: Column| c@),
            primary_key: self.primary_key@.map_values(|n: String| n@),
            foreign_keys: self.foreign_keys@.map_values(|f: ForeignKey| f@),
        }
    }
}

/// The definition line for one column: name, type, optional DEFAULT
/// literal, NOT NULL if not nullable.
pub open spec fn column_def_line(c: ColumnView) -> Seq<char> {
    let base: Seq<char> = quote_ident(c.name) + " "@ + c.data_type;
    let with_default: Seq<char> = match c.default {
        Option::Some(d) => base + " DEFAULT "@ + d,
        Option::None => base,
    };
    if c.nullable {
        with_default
    } else {
        with_default + " NOT NULL"@
    }
}

/// The PRIMARY KEY clause, listing the key columns in given order.
pub open spec fn primary_key_clause(pk: Seq<Seq<char>>) -> Seq<char> {
    "PRIMARY KEY ("@ + join(quote_idents(pk), ", "@) + ")"@
}

/// The FOREIGN KEY clause for one declared foreign key.
pub open spec fn foreign_key_clause(f: ForeignKeyView) -> Seq<char> {
    "FOREIGN KEY ("@ + join(quote_idents(f.columns), ", "@) + ") REFERENCES "@
        + quote_ident(f.referenced_table) + " ("@ + join(quote_idents(f.referenced_columns), ", "@)
        + ")"@
}

/// All definition lines: one per column in declared order, then exactly
/// one PRIMARY KEY clause, then one FOREIGN KEY clause per foreign key.
pub open spec fn definition_rows(m: CreateTableView) -> Seq<Seq<char>> {
    m.columns.map_values(|c: ColumnView| column_def_line(c)).push(
        primary_key_clause(m.primary_key),
    ) + m.foreign_keys.map_values(|f: ForeignKeyView| foreign_key_clause(f))
}

/// The single CREATE statement `run` submits.
pub open spec fn create_table_statement(m: CreateTableView) -> Seq<char> {
    "CREATE TABLE "@ + quote_ident(m.name) + " ("@ + join(definition_rows(m), ", "@) + ")"@
}

/// The statement `abort` submits to drop the table again.
pub open spec fn drop_table_statement(m: CreateTableView) -> Seq<char> {
    "DROP TABLE IF EXISTS "@ + quote_ident(m.name)
}

/// The human-readable summary `describe` returns.
pub open spec fn create_table_description(m: CreateTableView) -> Seq<char> {
    "Creating table \""@ + m.name + "\""@
}

/// The table this action adds to the logical schema: the described columns
/// (logical names only, no DEFAULT) and the primary key; foreign keys are
/// not carried into the logical model.
pub open spec fn new_table_view(m: CreateTableView) -> TableView {
    TableView {
        name: m.name,
        columns: m.columns.map_values(
            |c: ColumnView| schema::ColumnView {
                name: c.name,
                real_name: Option::None,
                data_type: c.data_type,
                nullable: c.nullable,
            },
        ),
        primary_key: m.primary_key,
    }
}

impl CreateTable {
    /// A human-readable summary of the change; pure.
    pub fn describe(&self) -> (r: String)
        ensures
            r@ == create_table_description(self@),
    {
        let mut r = String::from_str("Creating table \"");
        r.append(self.name.as_str());
        r.append("\"");
        r
    }

    /// The definition line for one column description.
    fn column_line(c: &Column) -> (r: String)
        ensures
            r@ == column_def_line(c@),
    {
        let mut r = quoted(c.name.as_str());
        r.append(" ");
        r.append(c.data_type.as_str());
        match &c.default {
            Option::Some(d) => {
                r.append(" DEFAULT ");
                r.append(d.as_str());
            },
            Option::None => {},
        }
        if !c.nullable {
            r.append(" NOT NULL");
        }
        r
    }

    /// The single CREATE TABLE statement this action submits on `run`.
    pub fn create_statement(&self) -> (r: String)
        ensures
            r@ == create_table_statement(self@),
    {
        let mut rows: Vec<String> = Vec::new();
        let mut i: usize = 0;
        while i < self.columns.len()
            invariant
                0 <= i <= self.columns.len(),
                rows@.len() == i,
                forall|j: int| 0 <= j < i ==> rows@[j]@ == column_def_line(self@.columns[j]),
            decreases self.columns.len() - i,
        {
            rows.push(Self::column_line(&self.columns[i]));
            proof {
                assert(self@.columns[i as int] == self.columns@[i as int]@);
            }
            i = i + 1;
        }
        let mut pk = String::from_str("PRIMARY KEY (");
        let quoted_pk = quote_all(&self.primary_key);
        pk.append(join_with(&quoted_pk, ", ").as_str());
        pk.append(")");
        proof {
            assert(pk@ == primary_key_clause(self@.primary_key));
        }
        rows.push(pk);
        let ghost head: int = self.columns@.len() as int + 1;
        let mut k: usize = 0;
        while k < self.foreign_keys.len()
            invariant
                0 <= k <= self.foreign_keys.len(),
                head == self.columns@.len() + 1,
                rows@.len() == head + k,
                forall|j: int| 0 <= j < self.columns@.len() ==> rows@[j]@ == column_def_line(
                    self@.columns[j],
                ),
                rows@[head - 1]@ == primary_key_clause(self@.primary_key),
                forall|j: int| 0 <= j < k ==> rows@[head + j]@ == foreign_key_clause(
                    self@.foreign_keys[j],
                ),
            decreases self.foreign_keys.len() - k,
        {
            let f = &self.foreign_keys[k];
            let mut line = String::from_str("FOREIGN KEY (");
            let quoted_cols = quote_all(&f.columns);
            line.append(join_with(&quoted_cols, ", ").as_str());
            line.append(") REFERENCES ");
            line.append(quoted(f.referenced_table.as_str()).as_str());
            line.append(" (");
            let quoted_refs = quote_all(&f.referenced_columns);
            line.append(join_with(&quoted_refs, ", ").as_str());
            line.append(")");
            proof {
                assert(self@.foreign_keys[k as int] == self.foreign_keys@[k as int]@);
                assert(line@ == foreign_key_clause(self@.foreign_keys[k as int]));
            }
            let ghost pre_rows: Seq<String> = rows@;
            let ghost linev: String = line;
            rows.push(line);
            proof {
                assert(rows@ == pre_rows.push(linev));
                assert forall|j: int| 0 <= j < pre_rows.len() implies rows@[j] == pre_rows[j] by {
                    assert(pre_rows.push(linev)[j] == pre_rows[j]);
                }
                assert(rows@[head + k as int] == linev);
            }
            k = k + 1;
        }
        proof {
            assert(rows@.map_values(|p: String| p@) =~= definition_rows(self@));
        }
        let mut r = String::from_str("CREATE TABLE ");
        r.append(quoted(self.name.as_str()).as_str());
        r.append(" (");
        r.append(join_with(&rows, ", ").as_str());
        r.append(")");
        r
    }

    /// Submits the CREATE TABLE statement. The logical schema plays no
    /// part here; additive changes are applied in full immediately.
    pub fn run<C: Conn>(&self, db: &mut C, _schema: &Schema) -> (r: Result<(), MigrationError>)
        ensures
            final(db).log() == old(db).log().push(create_table_statement(self@)),
            r matches Err(e) ==> e is Execution,
    {
        let stmt = self.create_statement();
        match db.run(stmt.as_str()) {
            Ok(()) => Ok(()),
            Err(e) => Err(MigrationError::Execution(e)),
        }
    }

    /// Nothing to finalize: the table is already in its final shape.
    pub fn complete<C: Conn>(&self, _db: &mut C, _schema: &Schema) -> (r: Result<
        (),
        MigrationError,
    >)
        ensures
            r matches Ok(()),
            *final(_db) == *old(_db),
    {
        Ok(())
    }

    /// Replays the change against the logical schema: inserts the new
    /// table, or reports `Conflict` if the name is already taken.
    pub fn update_schema(&self, schema: &mut Schema) -> (r: Result<(), SchemaError>)
        requires
            old(schema).wf(),
        ensures
            final(schema).wf(),
            match r {
                Ok(()) => !has_table(old(schema)@, self@.name) && final(schema)@ == old(
                    schema,
                )@.push(new_table_view(self@)),
                Err(e) => e == SchemaError::Conflict && has_table(old(schema)@, self@.name)
                    && final(schema)@ == old(schema)@,
            },
    {
        let mut table = schema::Table::new(self.name.clone());
        let mut i: usize = 0;
        while i < self.primary_key.len()
            invariant
                0 <= i <= self.primary_key.len(),
                table@.name == self@.name,
                table@.columns == Seq::<schema::ColumnView>::empty(),
                table@.primary_key == self@.primary_key.take(i as int),
            decreases self.primary_key.len() - i,
        {
            let ghost pre: TableView = table@;
            table.primary_key.push(self.primary_key[i].clone());
            proof {
                assert(self@.primary_key[i as int] == self.primary_key@[i as int]@);
                assert(table@.primary_key =~= pre.primary_key.push(self@.primary_key[i as int]));
                assert(table@.primary_key =~= self@.primary_key.take(i + 1 as int));
                assert(table@.columns =~= pre.columns);
            }
            i = i + 1;
        }
        proof {
            assert(table@.primary_key =~= self@.primary_key);
        }
        let mut j: usize = 0;
        while j < self.columns.len()
            invariant
                0 <= j <= self.columns.len(),
                table@.name == self@.name,
                table@.primary_key == self@.primary_key,
                table@.columns == new_table_view(self@).columns.take(j as int),
            decreases self.columns.len() - j,
        {
            let c = &self.columns[j];
            let ghost pre: TableView = table@;
            table.add_column(
                schema::Column {
                    name: c.name.clone(),
                    real_name: Option::None,
                    data_type: c.data_type.clone(),
                    nullable: c.nullable,
                },
            );
            proof {
                assert(self@.columns[j as int] == self.columns@[j as int]@);
                assert(table@.columns =~= new_table_view(self@).columns.take(j + 1 as int));
            }
            j = j + 1;
        }
        proof {
            assert(table@.columns =~= new_table_view(self@).columns);
            assert(table@ == new_table_view(self@));
        }
        schema.add_table(table)
    }

    /// Undoes `run`: drops the table if it is there. Absence is success,
    /// so the statement is safe after a partial or repeated `run`.
    pub fn abort<C: Conn>(&self, db: &mut C) -> (r: Result<(), MigrationError>)
        ensures
            final(db).log() == old(db).log().push(drop_table_statement(self@)),
            r matches Err(e) ==> e is Execution,
    {
        let mut stmt = String::from_str("DROP TABLE IF EXISTS ");
        stmt.append(quoted(self.name.as_str()).as_str());
        match db.run(stmt.as_str()) {
            Ok(()) => Ok(()),
            Err(e) => Err(MigrationError::Execution(e)),
        }
    }
}

} // verus!
