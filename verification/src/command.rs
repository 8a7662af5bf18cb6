//! What a listener may ask of the stack in answer to a message.

use crate::p2p::P2PControl;
use crate::session::PeerId;
use crate::timeout::{ExpiryAction, RequestKind};
use vstd::prelude::*;

verus! {

/// A command of a listener.
pub enum Command<M> {
    /// A command to the connection manager.
    Control(P2PControl<M>),
    /// Expect `peer` to give an answer of `kind` within `duration`, and take
    /// `action` if it does not.
    Arm { peer: PeerId, kind: RequestKind, duration: u64, action: ExpiryAction },
    /// The answer of `kind` came from `peer`.
    Disarm { peer: PeerId, kind: RequestKind },
}

} // verus!
