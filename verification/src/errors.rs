//! Error kinds: statement execution failures reported by the store, and
//! inconsistencies detected while replaying changes against the logical
//! schema.

use vstd::prelude::*;

verus! {

/// A statement was rejected by the backing store (syntax error, constraint
/// violation, connectivity, ...). The store's own diagnostics stay with the
/// executor; the engine only needs to know that the statement did not take
/// effect.
#[derive(Clone, Copy, Debug, PartialEq, Eq, Structural)]
pub struct ExecutionError;

/// The requested change is inconsistent with the logical schema accumulated
/// so far. This indicates a migration-definition bug, not a runtime
/// condition.
#[derive(Clone, Copy, Debug, PartialEq, Eq, Structural)]
pub enum SchemaError {
    /// A referenced table or column is absent from the logical schema.
    NotFound,
    /// A table of the given name is already present.
    Conflict,
}

/// Any failure an action phase can propagate.
#[derive(Clone, Copy, Debug, PartialEq, Eq, Structural)]
pub enum MigrationError {
    /// The executor rejected a statement.
    Execution(ExecutionError),
    /// The logical schema rejected the change.
    Schema(SchemaError),
}

} // verus!
