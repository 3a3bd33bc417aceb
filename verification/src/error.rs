//! What can go wrong between the host and the engine.
use vstd::prelude::*;

verus! {

/// A failure of the bridge. Absence of a node is never one of these: a
/// navigation that finds nothing answers `Ok(None)`.
#[derive(Clone, Copy, Debug, PartialEq, Eq, Structural)]
pub enum BridgeError {
    /// A position does not fit the 32-bit offsets the engine works with.
    OutOfEngineRange,
    /// The engine reported a node that ends before it starts.
    InvertedRange,
    /// The engine reported more named children than children.
    CountMismatch,
    /// The engine had no child at an index below the count it reported.
    MissingChild,
    /// The engine answered a question about named nodes with an anonymous one.
    AnonymousResult,
}

} // verus!
