//! What can go wrong between the node, the pipeline and the graph store.

use vstd::prelude::*;

verus! {

/// A call to the node did not give a usable document.
#[derive(Debug, Clone, PartialEq, Eq)]
pub enum RemoteQueryError {
    /// The exchange itself failed; the text is the transport's account of it.
    Unreachable(String),
    /// The node answered with this status, which is no success.
    Refused(u16),
    /// The answer was no document, or lacked what was asked for.
    Malformed,
}

/// The graph store did not take a write.
#[derive(Debug, Clone, Copy, PartialEq, Eq, Structural)]
pub enum StoreWriteError {
    /// The store could not be reached.
    Unavailable,
    /// The write cannot be put to the store: a height beyond its integers,
    /// or a time beyond the calendar.
    Malformed,
}

/// The graph store did not answer a read.
#[derive(Debug, Clone, Copy, PartialEq, Eq, Structural)]
pub enum StoreReadError {
    /// The store could not be reached.
    Unavailable,
    /// The store answered with a row that lacks what was asked for.
    Unreadable,
}

} // verus!
