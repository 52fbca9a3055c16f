//! The uniform action contract: one dispatching type over the closed set
//! of change kinds, so an orchestrator can hold an ordered list of mixed
//! actions and drive each through `run`, then exactly one of `complete`
//! or `abort`, with `update_schema` replayed alongside `run`.

use vstd::prelude::*;

use crate::conn::Conn;
use crate::create_table;
use crate::create_table::CreateTable;
use crate::errors::{MigrationError, SchemaError};
use crate::remove_column;
use crate::remove_column::RemoveColumn;
use crate::schema::{has_column, has_table, name_index, remove_column_view, table_at, table_names,
    Schema};

verus! {

/// One self-describing unit of schema change.
#[derive(Debug)]
pub enum Action {
    CreateTable(CreateTable),
    RemoveColumn(RemoveColumn),
}

/// The stable kind tag identifying each variant in persistence records.
pub open spec fn kind_tag(a: &Action) -> Seq<char> {
    match a {
        Action::CreateTable(_) => "create_table"@,
        Action::RemoveColumn(_) => "remove_column"@,
    }
}

/// The human-readable summary `describe` returns.
pub open spec fn description(a: &Action) -> Seq<char> {
    match a {
        Action::CreateTable(c) => create_table::create_table_description(c@),
        Action::RemoveColumn(r) => remove_column::remove_column_description(r@),
    }
}

impl Action {
    /// The stable kind tag naming this variant.
    pub fn kind(&self) -> (r: &'static str)
        ensures
            r@ == kind_tag(self),
    {
        match self {
            Action::CreateTable(_) => "create_table",
            Action::RemoveColumn(_) => "remove_column",
        }
    }

    /// A human-readable summary of the change; pure.
    pub fn describe(&self) -> (r: String)
        ensures
            r@ == description(self),
    {
        match self {
            Action::CreateTable(c) => c.describe(),
            Action::RemoveColumn(r) => r.describe(),
        }
    }

    /// Installs the change (additive kinds) or its compensating machinery
    /// (destructive kinds); see each variant's own operation.
    pub fn run<C: Conn>(&self, db: &mut C, schema: &Schema) -> (r: Result<(), MigrationError>)
        ensures
            match self {
                Action::CreateTable(a) => final(db).log() == old(db).log().push(
                    create_table::create_table_statement(a@),
                ) && (r matches Err(e) ==> e is Execution),
                Action::RemoveColumn(a) => {
                    &&& a.down is None ==> (r matches Ok(())) && *final(db) == *old(db)
                    &&& a.down matches Some(d) ==> if has_table(schema@, a@.table) {
                        final(db).log() == old(db).log().push(
                            remove_column::trigger_statement(
                                a@,
                                table_at(schema@, a@.table),
                                d@,
                            ),
                        ) && (r matches Err(e) ==> e is Execution)
                    } else {
                        r == Err::<(), MigrationError>(
                            MigrationError::Schema(SchemaError::NotFound),
                        ) && *final(db) == *old(db)
                    }
                },
            },
    {
        match self {
            Action::CreateTable(a) => a.run(db, schema),
            Action::RemoveColumn(a) => a.run(db, schema),
        }
    }

    /// Performs the part that is safe only once no code depends on the
    /// old shape.
    pub fn complete<C: Conn>(&self, db: &mut C, schema: &Schema) -> (r: Result<
        (),
        MigrationError,
    >)
        ensures
            match self {
                Action::CreateTable(_) => (r matches Ok(())) && *final(db) == *old(db),
                Action::RemoveColumn(a) => final(db).log() == old(db).log().push(
                    remove_column::complete_statement(a@),
                ) && (r matches Err(e) ==> e is Execution),
            },
    {
        match self {
            Action::CreateTable(a) => a.complete(db, schema),
            Action::RemoveColumn(a) => a.complete(db, schema),
        }
    }

    /// Replays the change against the logical schema.
    pub fn update_schema(&self, schema: &mut Schema) -> (r: Result<(), SchemaError>)
        requires
            old(schema).wf(),
        ensures
            final(schema).wf(),
            match self {
                Action::CreateTable(a) => match r {
                    Ok(()) => !has_table(old(schema)@, a@.name) && final(schema)@ == old(
                        schema,
                    )@.push(create_table::new_table_view(a@)),
                    Err(e) => e == SchemaError::Conflict && has_table(old(schema)@, a@.name)
                        && final(schema)@ == old(schema)@,
                },
                Action::RemoveColumn(a) => match r {
                    Ok(()) => has_table(old(schema)@, a@.table) && has_column(
                        table_at(old(schema)@, a@.table),
                        a@.column,
                    ) && final(schema)@ == old(schema)@.update(
                        name_index(table_names(old(schema)@), a@.table),
                        remove_column_view(table_at(old(schema)@, a@.table), a@.column),
                    ),
                    Err(e) => e == SchemaError::NotFound && final(schema)@ == old(schema)@ && !(
                    has_table(old(schema)@, a@.table) && has_column(
                        table_at(old(schema)@, a@.table),
                        a@.column,
                    )),
                },
            },
    {
        match self {
            Action::CreateTable(a) => a.update_schema(schema),
            Action::RemoveColumn(a) => a.update_schema(schema),
        }
    }

    /// Undoes `run`, restoring the pre-run physical state; never touches
    /// the logical schema.
    pub fn abort<C: Conn>(&self, db: &mut C) -> (r: Result<(), MigrationError>)
        ensures
            match self {
                Action::CreateTable(a) => final(db).log() == old(db).log().push(
                    create_table::drop_table_statement(a@),
                ) && (r matches Err(e) ==> e is Execution),
                Action::RemoveColumn(a) => final(db).log() == old(db).log().push(
                    remove_column::abort_statement(a@),
                ) && (r matches Err(e) ==> e is Execution),
            },
    {
        match self {
            Action::CreateTable(a) => a.abort(db),
            Action::RemoveColumn(a) => a.abort(db),
        }
    }
}

} // verus!
