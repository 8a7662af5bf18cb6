//! Errors reported to callers of the stack.

use vstd::prelude::*;

verus! {

/// Why a request to the stack was not carried out.
#[derive(Clone, Copy, Debug, PartialEq, Eq, Structural)]
pub enum Error {
    /// The peer is not in the connection table.
    PeerNotFound,
    /// No further session can be set up: the peer ids are used up.
    ResourceExhausted,
}

} // verus!
