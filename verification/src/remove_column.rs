//! The destructive action: remove a column.
//!
//! While old application code may still write rows without knowing the
//! column is going away, `run` only installs compensating machinery: a
//! write-time procedure and trigger that backfill the column from a
//! caller-supplied `down` expression whenever an incoming row leaves it
//! absent. `complete` drops the column and the machinery once no code
//! depends on the old shape; `abort` drops the machinery only.

use vstd::prelude::*;

use crate::conn::Conn;
use crate::errors::{MigrationError, SchemaError};
use crate::schema::{has_column, has_table, table_at, Schema, TableView};
use crate::text::{join, join_with, quote_ident, quoted};

verus! {

/// Mathematical model of a [`RemoveColumn`] action.
pub struct RemoveColumnView {
    pub table: Seq<char>,
    pub column: Seq<char>,
    pub down: Option<Seq<char>>,
}

/// Removes `column` from `table`. The optional `down` expression, written
/// in the store's expression language over the row's other columns,
/// computes the value to backfill while the column is being phased out;
/// without it no compensating machinery is installed.
#[derive(Debug)]
pub struct RemoveColumn {
    pub table: String,
    pub column: String,
    pub down: Option<String>,
}

impl View for RemoveColumn {
    type V = RemoveColumnView;

    open spec fn view(&self) -> RemoveColumnView {
        RemoveColumnView {
            table: self.table@,
            column: self.column@,
            down: match self.down {
                Option::Some(d) => Option::Some(d@),
                Option::None => Option::None,
            },
        }
    }
}

/// The shared name of the compensating trigger and procedure, derived
/// deterministically from table and column so repeated runs and
/// independent removals never collide.
pub open spec fn trigger_name_view(m: RemoveColumnView) -> Seq<char> {
    "remove_column_"@ + m.table + "_"@ + m.column
}

/// One declaration handed to the `down` expression: the current value of
/// one existing column of the table, under that column's own name.
pub open spec fn declaration_line(table: Seq<char>, column: Seq<char>) -> Seq<char> {
    quote_ident(column) + " public."@ + quote_ident(table) + "."@ + quote_ident(column)
        + "%TYPE := NEW."@ + quote_ident(column) + ";"@
}

/// The declarations for all current columns of the table, in order.
pub open spec fn declarations(t: TableView) -> Seq<char> {
    join(t.columns.map_values(|c: crate::schema::ColumnView| declaration_line(t.name, c.name)), " "@)
}

/// The script `run` submits when a `down` expression is given: create or
/// replace the backfill procedure, then drop and recreate the
/// before-insert/update trigger, so a repeated `run` is safe.
pub open spec fn trigger_statement(m: RemoveColumnView, t: TableView, down: Seq<char>) -> Seq<
    char,
> {
    "CREATE OR REPLACE FUNCTION "@ + quote_ident(trigger_name_view(m))
        + "() RETURNS TRIGGER AS $$ BEGIN IF NEW."@ + quote_ident(m.column)
        + " IS NULL THEN DECLARE "@ + declarations(t) + " BEGIN NEW."@ + quote_ident(m.column)
        + " = "@ + down
        + "; END; END IF; RETURN NEW; END $$ language 'plpgsql'; DROP TRIGGER IF EXISTS "@
        + quote_ident(trigger_name_view(m)) + " ON "@ + quote_ident(m.table) + "; CREATE TRIGGER "@
        + quote_ident(trigger_name_view(m)) + " BEFORE UPDATE OR INSERT ON "@
        + quote_ident(m.table) + " FOR EACH ROW EXECUTE PROCEDURE "@
        + quote_ident(trigger_name_view(m)) + "();"@
}

/// The script `complete` submits: drop the column, then unconditionally
/// drop the compensating trigger and procedure (idempotent drop-if-exists).
pub open spec fn complete_statement(m: RemoveColumnView) -> Seq<char> {
    "ALTER TABLE "@ + quote_ident(m.table) + " DROP COLUMN "@ + quote_ident(m.column)
        + "; DROP TRIGGER IF EXISTS "@ + quote_ident(trigger_name_view(m)) + " ON "@
        + quote_ident(m.table) + "; DROP FUNCTION IF EXISTS "@ + quote_ident(trigger_name_view(m))
        + ";"@
}

/// The script `abort` submits: drop the compensating trigger and
/// procedure; the column itself was never touched by `run`.
pub open spec fn abort_statement(m: RemoveColumnView) -> Seq<char> {
    "DROP TRIGGER IF EXISTS "@ + quote_ident(trigger_name_view(m)) + " ON "@
        + quote_ident(m.table) + "; DROP FUNCTION IF EXISTS "@
        + quote_ident(trigger_name_view(m)) + ";"@
}

/// The human-readable summary `describe` returns.
pub open spec fn remove_column_description(m: RemoveColumnView) -> Seq<char> {
    "Removing column \""@ + m.column + "\" from \""@ + m.table + "\""@
}

impl RemoveColumn {
    /// The shared name of the compensating trigger and procedure.
    pub fn trigger_name(&self) -> (r: String)
        ensures
            r@ == trigger_name_view(self@),
    {
        let mut r = String::from_str("remove_column_");
        r.append(self.table.as_str());
        r.append("_");
        r.append(self.column.as_str());
        r
    }

    /// A human-readable summary of the change; pure.
    pub fn describe(&self) -> (r: String)
        ensures
            r@ == remove_column_description(self@),
    {
        let mut r = String::from_str("Removing column \"");
        r.append(self.column.as_str());
        r.append("\" from \"");
        r.append(self.table.as_str());
        r.append("\"");
        r
    }

    /// Installs the compensating machinery (with a `down` expression), or
    /// does nothing (without one). Reads the table's current columns from
    /// the logical schema; `NotFound` if the table is not in it.
    pub fn run<C: Conn>(&self, db: &mut C, schema: &Schema) -> (r: Result<(), MigrationError>)
        ensures
            self.down is None ==> (r matches Ok(())) && *final(db) == *old(db),
            self.down matches Some(d) ==> if has_table(schema@, self@.table) {
                final(db).log() == old(db).log().push(
                    trigger_statement(self@, table_at(schema@, self@.table), d@),
                ) && (r matches Err(e) ==> e is Execution)
            } else {
                r == Err::<(), MigrationError>(MigrationError::Schema(SchemaError::NotFound))
                    && *final(db) == *old(db)
            },
    {
        let down = match &self.down {
            Option::Some(down) => down,
            Option::None => {
                return Ok(());
            },
        };
        let table = match schema.find_table(&self.table) {
            Ok(table) => table,
            Err(e) => {
                return Err(MigrationError::Schema(e));
            },
        };
        let ghost tv: TableView = table@;
        let mut decls: Vec<String> = Vec::new();
        let mut i: usize = 0;
        while i < table.columns.len()
            invariant
                0 <= i <= table.columns.len(),
                decls@.len() == i,
                forall|j: int| 0 <= j < i ==> decls@[j]@ == declaration_line(
                    tv.name,
                    tv.columns[j].name,
                ),
                tv == table@,
            decreases table.columns.len() - i,
        {
            let c = &table.columns[i];
            let mut line = quoted(c.name.as_str());
            line.append(" public.");
            line.append(quoted(table.name.as_str()).as_str());
            line.append(".");
            line.append(quoted(c.name.as_str()).as_str());
            line.append("%TYPE := NEW.");
            line.append(quoted(c.name.as_str()).as_str());
            line.append(";");
            proof {
                assert(tv.columns[i as int] == table.columns@[i as int]@);
                assert(line@ == declaration_line(tv.name, tv.columns[i as int].name));
            }
            let ghost pre: Seq<String> = decls@;
            let ghost linev: String = line;
            decls.push(line);
            proof {
                assert forall|j: int| 0 <= j < pre.len() implies decls@[j] == pre[j] by {
                    assert(pre.push(linev)[j] == pre[j]);
                }
            }
            i = i + 1;
        }
        let joined = join_with(&decls, " ");
        proof {
            assert(decls@.map_values(|p: String| p@) =~= tv.columns.map_values(
                |c: crate::schema::ColumnView| declaration_line(tv.name, c.name),
            ));
        }
        let tn = self.trigger_name();
        let qtn = quoted(tn.as_str());
        let qcolumn = quoted(self.column.as_str());
        let qtable = quoted(self.table.as_str());
        let mut stmt = String::from_str("CREATE OR REPLACE FUNCTION ");
        stmt.append(qtn.as_str());
        stmt.append("() RETURNS TRIGGER AS $$ BEGIN IF NEW.");
        stmt.append(qcolumn.as_str());
        stmt.append(" IS NULL THEN DECLARE ");
        stmt.append(joined.as_str());
        stmt.append(" BEGIN NEW.");
        stmt.append(qcolumn.as_str());
        stmt.append(" = ");
        stmt.append(down.as_str());
        stmt.append("; END; END IF; RETURN NEW; END $$ language 'plpgsql'; DROP TRIGGER IF EXISTS ");
        stmt.append(qtn.as_str());
        stmt.append(" ON ");
        stmt.append(qtable.as_str());
        stmt.append("; CREATE TRIGGER ");
        stmt.append(qtn.as_str());
        stmt.append(" BEFORE UPDATE OR INSERT ON ");
        stmt.append(qtable.as_str());
        stmt.append(" FOR EACH ROW EXECUTE PROCEDURE ");
        stmt.append(qtn.as_str());
        stmt.append("();");
        proof {
            assert(stmt@ == trigger_statement(self@, table_at(schema@, self@.table), down@));
        }
        match db.run(stmt.as_str()) {
            Ok(()) => Ok(()),
            Err(e) => Err(MigrationError::Execution(e)),
        }
    }

    /// Finalizes the removal: physically drops the column, then the
    /// compensating trigger and procedure.
    pub fn complete<C: Conn>(&self, db: &mut C, _schema: &Schema) -> (r: Result<
        (),
        MigrationError,
    >)
        ensures
            final(db).log() == old(db).log().push(complete_statement(self@)),
            r matches Err(e) ==> e is Execution,
    {
        let tn = self.trigger_name();
        let qtn = quoted(tn.as_str());
        let qtable = quoted(self.table.as_str());
        let mut stmt = String::from_str("ALTER TABLE ");
        stmt.append(qtable.as_str());
        stmt.append(" DROP COLUMN ");
        stmt.append(quoted(self.column.as_str()).as_str());
        stmt.append("; DROP TRIGGER IF EXISTS ");
        stmt.append(qtn.as_str());
        stmt.append(" ON ");
        stmt.append(qtable.as_str());
        stmt.append("; DROP FUNCTION IF EXISTS ");
        stmt.append(qtn.as_str());
        stmt.append(";");
        match db.run(stmt.as_str()) {
            Ok(()) => Ok(()),
            Err(e) => Err(MigrationError::Execution(e)),
        }
    }

    /// Replays the change against the logical schema: deletes the column
    /// from the table; `NotFound` if the table or the column is absent.
    pub fn update_schema(&self, schema: &mut Schema) -> (r: Result<(), SchemaError>)
        requires
            old(schema).wf(),
        ensures
            final(schema).wf(),
            match r {
                Ok(()) => has_table(old(schema)@, self@.table) && has_column(
                    table_at(old(schema)@, self@.table),
                    self@.column,
                ) && final(schema)@ == old(schema)@.update(
                    crate::schema::name_index(
                        crate::schema::table_names(old(schema)@),
                        self@.table,
                    ),
                    crate::schema::remove_column_view(
                        table_at(old(schema)@, self@.table),
                        self@.column,
                    ),
                ),
                Err(e) => e == SchemaError::NotFound && final(schema)@ == old(schema)@ && !(
                has_table(old(schema)@, self@.table) && has_column(
                    table_at(old(schema)@, self@.table),
                    self@.column,
                )),
            },
    {
        schema.remove_column(&self.table, &self.column)
    }

    /// Undoes `run`: drops the compensating trigger and procedure. No
    /// column was dropped at run time, so none is restored; absence of the
    /// objects counts as success.
    pub fn abort<C: Conn>(&self, db: &mut C) -> (r: Result<(), MigrationError>)
        ensures
            final(db).log() == old(db).log().push(abort_statement(self@)),
            r matches Err(e) ==> e is Execution,
    {
        let tn = self.trigger_name();
        let qtn = quoted(tn.as_str());
        let mut stmt = String::from_str("DROP TRIGGER IF EXISTS ");
        stmt.append(qtn.as_str());
        stmt.append(" ON ");
        stmt.append(quoted(self.table.as_str()).as_str());
        stmt.append("; DROP FUNCTION IF EXISTS ");
        stmt.append(qtn.as_str());
        stmt.append(";");
        match db.query(stmt.as_str()) {
            Ok(()) => Ok(()),
            Err(e) => Err(MigrationError::Execution(e)),
        }
    }
}

} // verus!
