//! Verified core of a single-hop TCP relay.
//!
//! The library models the decision logic of a per-connection relay: the
//! session lifecycle state machine, the per-direction byte pumps with
//! independent idle deadlines, and the aggregation of the two pump results
//! into a single relay outcome. All I/O (sockets, TLS handshakes, timers)
//! lives outside the library, which is handed plain events and returns
//! plain decisions.

use vstd::prelude::*;

pub mod pump;
pub mod relay;
pub mod session;

verus! {

/// The two endpoints of a session; errors and end-of-stream causes are
/// attributed to one of them.
#[derive(Clone, Copy, PartialEq, Eq, Structural, Debug)]
pub enum Side {
    Client,
    Upstream,
}

impl Side {
    /// The opposite endpoint.
    pub fn other(self) -> (r: Side)
        ensures
            r == (match self {
                Side::Client => Side::Upstream,
                Side::Upstream => Side::Client,
            }),
    {
        match self {
            Side::Client => Side::Upstream,
            Side::Upstream => Side::Client,
        }
    }
}

} // verus!
