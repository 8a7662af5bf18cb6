//! The networking core of a lightweight blockchain node.
//!
//! The crate decides; it does no input or output.  Sessions, timers and
//! protocol handlers run outside and report what happened, and the crate
//! answers with what is to be done:
//!
//! - [`p2p`] owns the sessions: the connection table, the handshake rules and
//!   the commands to bind, connect, send and disconnect.
//! - [`channel`] is the bounded queue between the sessions and the
//!   dispatcher.  A full channel takes nothing, so a slow consumer throttles
//!   every reader alike.
//! - [`dispatcher`] hands each envelope to every registered listener, in the
//!   order of registration, and goes on when a listener fails.
//! - [`timeout`] keeps the deadlines of requests that await an answer.
//! - [`keep_connected`] dials one untried address per tick while the node has
//!   fewer peers than it wants.
//! - [`constructor`] assembles these parts into the stack.
//!
//! Every function is verified against its contract.  What is taken on trust
//! are the calls into the `rand` and `bitcoin` crates in `entropy` and
//! [`services`], and the two types of the `bitcoin` crate that the stack
//! carries without looking inside.

pub mod address;
pub mod channel;
pub mod command;
pub mod constructor;
pub mod dispatcher;
mod entropy;
pub mod error;
pub mod keep_connected;
pub mod p2p;
pub mod services;
pub mod session;
pub mod timeout;
