//! Aggregation of the two directional pumps into one relay outcome.
//!
//! A relay runs one pump per direction; the relay ends as soon as either
//! pump does ("first-terminate-wins"), and the other pump is cancelled
//! rather than waited for. The outcome reports the byte counts both pumps
//! accumulated and the cause that ended the relay — the first-ended pump's
//! own cause, attributed to an endpoint, never an error manufactured by the
//! cancellation.

use vstd::prelude::*;

use crate::Side;
use crate::pump::{EndCause, Pump, PumpPhase};

verus! {

/// The terminating cause of a relay, attributed to one endpoint.
#[derive(Clone, Copy, PartialEq, Eq, Structural, Debug)]
pub enum RelayCause {
    /// The named endpoint closed its stream cleanly.
    CleanEof(Side),
    /// A read from the named endpoint failed.
    ReadError(Side),
    /// A write to the named endpoint failed.
    WriteError(Side),
    /// The named endpoint stayed silent past its direction's idle deadline.
    IdleTimeout(Side),
}

/// The terminal result of one relay: bytes moved in each direction and the
/// cause that ended it first.
#[derive(Clone, Copy, PartialEq, Eq, Structural, Debug)]
pub struct RelayOutcome {
    /// Bytes forwarded from the client to the upstream.
    pub client_to_upstream: u64,
    /// Bytes forwarded from the upstream to the client.
    pub upstream_to_client: u64,
    /// Why the relay ended.
    pub cause: RelayCause,
}

impl RelayOutcome {
    /// Whether the relay ended by a clean end-of-stream rather than an
    /// error or a timeout.
    pub fn is_clean(&self) -> (r: bool)
        ensures
            r == (self.cause is CleanEof),
    {
        match self.cause {
            RelayCause::CleanEof(_) => true,
            _ => false,
        }
    }
}

/// How a pump's end cause is attributed to an endpoint: end-of-stream, read
/// failures and idle silence belong to the pump's source; a failed write
/// belongs to the destination, the opposite endpoint.
pub open spec fn attributed(source: Side, cause: EndCause) -> RelayCause {
    match cause {
        EndCause::CleanEof => RelayCause::CleanEof(source),
        EndCause::ReadError => RelayCause::ReadError(source),
        EndCause::IdleTimeout => RelayCause::IdleTimeout(source),
        EndCause::WriteError => RelayCause::WriteError(
            match source {
                Side::Client => Side::Upstream,
                Side::Upstream => Side::Client,
            },
        ),
    }
}

/// The outcome a finished relay reports, as a function of the two pumps and
/// of which direction's pump terminated first: both byte counts as the
/// pumps accumulated them, and the first-ended pump's cause.
pub open spec fn outcome_of(c2u: Pump, u2c: Pump, first: Side) -> RelayOutcome {
    RelayOutcome {
        client_to_upstream: c2u.bytes_forwarded,
        upstream_to_client: u2c.bytes_forwarded,
        cause: match first {
            Side::Client => attributed(Side::Client, c2u.phase->Done_0),
            Side::Upstream => attributed(Side::Upstream, u2c.phase->Done_0),
        },
    }
}

/// Build the relay outcome once the first pump has terminated. `first`
/// names the direction by its source: the client-to-upstream pump for
/// `Side::Client`, the upstream-to-client pump for `Side::Upstream`. The
/// other pump is simply read out for its byte count, whatever state its
/// cancellation left it in: a direction that had already finished cleanly
/// is reported by its bytes, and no spurious error is invented for it.
pub fn relay_outcome(c2u: &Pump, u2c: &Pump, first: Side) -> (r: RelayOutcome)
    requires
        c2u.source == Side::Client,
        u2c.source == Side::Upstream,
        first is Client ==> c2u.phase is Done,
        first is Upstream ==> u2c.phase is Done,
    ensures
        r == outcome_of(*c2u, *u2c, first),
        r.client_to_upstream == c2u.bytes_forwarded,
        r.upstream_to_client == u2c.bytes_forwarded,
{
    let cause = match first {
        Side::Client => match c2u.phase {
            PumpPhase::Done(c) => c,
            _ => EndCause::CleanEof,
        },
        Side::Upstream => match u2c.phase {
            PumpPhase::Done(c) => c,
            _ => EndCause::CleanEof,
        },
    };
    let attributed_cause = match cause {
        EndCause::CleanEof => RelayCause::CleanEof(first),
        EndCause::ReadError => RelayCause::ReadError(first),
        EndCause::IdleTimeout => RelayCause::IdleTimeout(first),
        EndCause::WriteError => RelayCause::WriteError(first.other()),
    };
    RelayOutcome {
        client_to_upstream: c2u.bytes_forwarded,
        upstream_to_client: u2c.bytes_forwarded,
        cause: attributed_cause,
    }
}

/// If the client sends nothing and closes, and the upstream likewise closes
/// without sending, the relay outcome reports zero bytes in both directions
/// and a clean end-of-stream cause — whichever direction happened to finish
/// first.
pub proof fn lemma_silent_clean_close(c2u: Pump, u2c: Pump, first: Side)
    requires
        c2u.wf(),
        u2c.wf(),
        c2u.phase == PumpPhase::Done(EndCause::CleanEof),
        u2c.phase == PumpPhase::Done(EndCause::CleanEof),
        c2u.received@ == Seq::<u8>::empty(),
        u2c.received@ == Seq::<u8>::empty(),
    ensures
        outcome_of(c2u, u2c, first).client_to_upstream == 0,
        outcome_of(c2u, u2c, first).upstream_to_client == 0,
        outcome_of(c2u, u2c, first).cause == RelayCause::CleanEof(first),
{
    crate::pump::lemma_clean_eof_forwards_exactly(c2u);
    crate::pump::lemma_clean_eof_forwards_exactly(u2c);
}

/// When both directions have in fact ended with a clean end-of-stream, the
/// relay outcome is clean and carries each pump's full payload count —
/// regardless of which direction won the termination race, the losing
/// direction's completed transfer is reported as it stands.
pub proof fn lemma_dual_eof_reports_clean(c2u: Pump, u2c: Pump, first: Side)
    requires
        c2u.wf(),
        u2c.wf(),
        c2u.phase == PumpPhase::Done(EndCause::CleanEof),
        u2c.phase == PumpPhase::Done(EndCause::CleanEof),
    ensures
        outcome_of(c2u, u2c, first).cause == RelayCause::CleanEof(first),
        outcome_of(c2u, u2c, first).client_to_upstream == c2u.received@.len(),
        outcome_of(c2u, u2c, first).upstream_to_client == u2c.received@.len(),
{
    crate::pump::lemma_clean_eof_forwards_exactly(c2u);
    crate::pump::lemma_clean_eof_forwards_exactly(u2c);
}

} // verus!
