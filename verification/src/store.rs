//! A model of the physical store, and the protocol laws proved over it.
//!
//! The engine cannot observe the store; it only submits statements. This
//! module gives each submitted statement its intended effect on an
//! abstract store — which tables exist with which columns, and which
//! compensating triggers and procedures are installed — and proves the
//! expand/complete/abort laws over those effects: a repeated `run` changes
//! nothing further, `abort` after `run` restores the pre-run store, and
//! after `complete` the column and both compensating objects are gone.

use vstd::prelude::*;

use crate::create_table::{CreateTable, CreateTableView};
use crate::remove_column::{trigger_name_view, RemoveColumn, RemoveColumnView};

verus! {

/// Abstract state of the physical store: each table's column names, and
/// the installed compensating triggers and procedures, all by name.
#[verifier::ext_equal]
pub struct StoreModel {
    pub tables: Map<Seq<char>, Set<Seq<char>>>,
    pub triggers: Set<Seq<char>>,
    pub functions: Set<Seq<char>>,
}

/// The column names a [`CreateTable`] action declares.
pub open spec fn declared_columns(m: CreateTableView) -> Set<Seq<char>> {
    Set::new(|n: Seq<char>| exists|i: int| 0 <= i < m.columns.len() && m.columns[i].name == n)
}

/// The effect of the CREATE TABLE statement `CreateTable::run` submits.
pub open spec fn create_table_run_effect(m: CreateTableView, s: StoreModel) -> StoreModel {
    StoreModel { tables: s.tables.insert(m.name, declared_columns(m)), ..s }
}

/// The effect of `CreateTable::complete`, which submits nothing.
pub open spec fn create_table_complete_effect(m: CreateTableView, s: StoreModel) -> StoreModel {
    s
}

/// The effect of the DROP TABLE IF EXISTS statement `CreateTable::abort`
/// submits.
pub open spec fn create_table_abort_effect(m: CreateTableView, s: StoreModel) -> StoreModel {
    StoreModel { tables: s.tables.remove(m.name), ..s }
}

/// The effect of the script `RemoveColumn::run` submits: with a `down`
/// expression it creates or replaces the backfill procedure and recreates
/// the trigger under the shared derived name; without one it submits
/// nothing.
pub open spec fn remove_column_run_effect(m: RemoveColumnView, s: StoreModel) -> StoreModel {
    if m.down is Some {
        StoreModel {
            triggers: s.triggers.insert(trigger_name_view(m)),
            functions: s.functions.insert(trigger_name_view(m)),
            ..s
        }
    } else {
        s
    }
}

/// The effect of the script `RemoveColumn::complete` submits: the column
/// is dropped from its table, and trigger and procedure are dropped
/// whether or not they exist.
pub open spec fn remove_column_complete_effect(m: RemoveColumnView, s: StoreModel) -> StoreModel {
    StoreModel {
        tables: if s.tables.contains_key(m.table) {
            s.tables.insert(m.table, s.tables[m.table].remove(m.column))
        } else {
            s.tables
        },
        triggers: s.triggers.remove(trigger_name_view(m)),
        functions: s.functions.remove(trigger_name_view(m)),
    }
}

/// The effect of the script `RemoveColumn::abort` submits: trigger and
/// procedure are dropped whether or not they exist; no table is touched.
pub open spec fn remove_column_abort_effect(m: RemoveColumnView, s: StoreModel) -> StoreModel {
    StoreModel {
        triggers: s.triggers.remove(trigger_name_view(m)),
        functions: s.functions.remove(trigger_name_view(m)),
        ..s
    }
}

impl CreateTable {
    /// `abort` after `run` restores the pre-run store: no table of that
    /// name is left, and a store that had none is exactly restored.
    pub proof fn abort_restores_pre_run_state(&self, s: StoreModel)
        ensures
            !create_table_abort_effect(self@, create_table_run_effect(self@, s)).tables
                .contains_key(self@.name),
            !s.tables.contains_key(self@.name) ==> create_table_abort_effect(
                self@,
                create_table_run_effect(self@, s),
            ) == s,
    {
        let after = create_table_abort_effect(self@, create_table_run_effect(self@, s));
        if !s.tables.contains_key(self@.name) {
            assert(after.tables =~= s.tables);
            assert(after =~= s);
        }
    }
}

impl RemoveColumn {
    /// Running the action twice yields the same compensating trigger and
    /// procedure as running it once: no duplicate objects arise.
    pub proof fn run_is_idempotent(&self, s: StoreModel)
        ensures
            remove_column_run_effect(self@, remove_column_run_effect(self@, s))
                == remove_column_run_effect(self@, s),
    {
        let once = remove_column_run_effect(self@, s);
        let twice = remove_column_run_effect(self@, once);
        assert(twice.triggers =~= once.triggers);
        assert(twice.functions =~= once.functions);
        assert(twice =~= once);
    }

    /// `abort` after `run` restores the pre-run store: the column is still
    /// physically present (no table changed at all), and a store without
    /// the compensating objects is exactly restored.
    pub proof fn abort_restores_pre_run_state(&self, s: StoreModel)
        requires
            !s.triggers.contains(trigger_name_view(self@)),
            !s.functions.contains(trigger_name_view(self@)),
        ensures
            remove_column_abort_effect(self@, remove_column_run_effect(self@, s)) == s,
    {
        let after = remove_column_abort_effect(self@, remove_column_run_effect(self@, s));
        assert(after.triggers =~= s.triggers);
        assert(after.functions =~= s.functions);
        assert(after =~= s);
    }

    /// `complete` is terminal: afterwards the column and both compensating
    /// objects are absent, and any number of prior `run` invocations makes
    /// no difference to the result.
    pub proof fn complete_is_terminal(&self, s: StoreModel)
        ensures
            !remove_column_complete_effect(self@, s).triggers.contains(trigger_name_view(self@)),
            !remove_column_complete_effect(self@, s).functions.contains(trigger_name_view(self@)),
            remove_column_complete_effect(self@, s).tables.contains_key(self@.table)
                ==> !remove_column_complete_effect(self@, s).tables[self@.table].contains(
                self@.column,
            ),
            remove_column_complete_effect(self@, remove_column_run_effect(self@, s))
                == remove_column_complete_effect(self@, s),
    {
        let direct = remove_column_complete_effect(self@, s);
        let rerun = remove_column_complete_effect(self@, remove_column_run_effect(self@, s));
        assert(rerun.triggers =~= direct.triggers);
        assert(rerun.functions =~= direct.functions);
        assert(rerun =~= direct);
    }
}

} // verus!
