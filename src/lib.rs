//! A coverage-guided mutational fuzzing core: reproducible stacked mutation of
//! byte inputs, the in-process executor's run and fault protocol, execution
//! statistics, and the snapshot that carries progress across a restart.
use vstd::prelude::*;

pub mod corpus;
pub mod executor;
pub mod inputs;
pub mod mutations;
pub mod rand;
pub mod scheduled;
pub mod snapshot;
pub mod state;
pub mod stats;

verus! {

/// The errors of this library.
#[derive(Clone, Copy, Debug, PartialEq, Eq, Structural)]
pub enum AflError {
    /// A snapshot was asked for while no state and corpus were registered.
    IllegalState,
    /// Snapshot bytes that do not decode.
    Codec,
    /// An empty mutation catalog was scheduled.
    EmptyCatalog,
    /// A corpus index past the end.
    KeyNotFound,
}

} // verus!
