//! The executor capability: the narrow interface through which actions
//! submit statements to the backing store. The engine consumes it; callers
//! provide the implementation that talks to a real store.

use vstd::prelude::*;

use crate::errors::ExecutionError;

verus! {

/// Executes raw statements against the store.
///
/// `log` is the abstract history of submitted statements; every
/// implementation says what its history is. An `Err` result means the
/// store rejected the statement; whether a rejected statement left partial
/// effects behind is the implementation's concern, not the engine's.
pub trait Conn: Sized {
    /// The statements submitted so far, oldest first.
    spec fn log(&self) -> Seq<Seq<char>>;

    /// Submits one statement (possibly a multi-statement script treated as
    /// one logical unit) and reports whether the store accepted it.
    fn run(&mut self, statement: &str) -> (r: Result<(), ExecutionError>)
        ensures
            final(self).log() == old(self).log().push(statement@),
    ;

    /// Like [`Conn::run`], for statements whose expected failures the
    /// caller wants to classify as non-fatal (e.g. "does not exist").
    fn query(&mut self, statement: &str) -> (r: Result<(), ExecutionError>)
        ensures
            final(self).log() == old(self).log().push(statement@),
    ;
}

/// An executor that records every submitted statement instead of talking
/// to a store. With `failing` set it rejects everything, which exercises
/// the error paths of the actions.
pub struct RecordingConn {
    pub statements: Vec<String>,
    pub failing: bool,
}

impl RecordingConn {
    /// A recorder that accepts every statement.
    pub fn new() -> (c: RecordingConn)
        ensures
            c.log() == Seq::<Seq<char>>::empty(),
            !c.failing,
    {
        let c = RecordingConn { statements: Vec::new(), failing: false };
        proof {
            assert(c.log() =~= Seq::<Seq<char>>::empty());
        }
        c
    }

    /// A recorder that rejects every statement.
    pub fn new_failing() -> (c: RecordingConn)
        ensures
            c.log() == Seq::<Seq<char>>::empty(),
            c.failing,
    {
        let c = RecordingConn { statements: Vec::new(), failing: true };
        proof {
            assert(c.log() =~= Seq::<Seq<char>>::empty());
        }
        c
    }
}

impl Conn for RecordingConn {
    open spec fn log(&self) -> Seq<Seq<char>> {
        self.statements@.map_values(|s: String| s@)
    }

    fn run(&mut self, statement: &str) -> (r: Result<(), ExecutionError>)
        ensures
            r is Ok <==> !old(self).failing,
            final(self).failing == old(self).failing,
    {
        let ghost pre: Seq<Seq<char>> = self.log();
        self.statements.push(statement.to_owned());
        proof {
            assert(self.log() =~= pre.push(statement@));
        }
        if self.failing {
            Err(ExecutionError)
        } else {
            Ok(())
        }
    }

    fn query(&mut self, statement: &str) -> (r: Result<(), ExecutionError>)
        ensures
            r is Ok <==> !old(self).failing,
            final(self).failing == old(self).failing,
    {
        let ghost pre: Seq<Seq<char>> = self.log();
        self.statements.push(statement.to_owned());
        proof {
            assert(self.log() =~= pre.push(statement@));
        }
        if self.failing {
            Err(ExecutionError)
        } else {
            Ok(())
        }
    }
}

} // verus!
