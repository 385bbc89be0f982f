//! One directional byte pump: the decision logic of the loop that reads a
//! chunk from its source stream and writes it in full to its destination,
//! under an idle deadline that is reset only when data arrives.
//!
//! The pump is a state machine driven from outside: the caller performs the
//! actual reads, writes and timer waits, and reports each result as an event
//! (`on_data`, `on_write_ok`, `on_write_err`, `on_eof`, `on_read_err`,
//! `on_timeout`). The pump decides what the event means, keeps the byte
//! counts and the idle deadline, and records why it ended. Ghost sequences
//! track every payload byte received and forwarded, so that the contracts
//! can state byte-for-byte, in-order forwarding.

use vstd::prelude::*;

use crate::Side;

verus! {

/// Why a pump ended.
#[derive(Clone, Copy, PartialEq, Eq, Structural, Debug)]
pub enum EndCause {
    /// The source closed cleanly (a read returned zero bytes).
    CleanEof,
    /// A read from the source failed.
    ReadError,
    /// A write to the destination failed.
    WriteError,
    /// No data arrived on the source before the idle deadline elapsed.
    IdleTimeout,
}

/// What the pump is waiting for.
#[derive(Clone, Copy, PartialEq, Eq, Structural, Debug)]
pub enum PumpPhase {
    /// Waiting for the next read on the source (or for the idle deadline).
    Reading,
    /// A chunk has arrived and must be written in full to the destination.
    Writing,
    /// The pump has terminated.
    Done(EndCause),
}

/// The state of one directional pump. Times are absolute milliseconds on a
/// caller-supplied monotonic clock.
pub struct Pump {
    /// The endpoint this pump reads from; read failures and idle timeouts
    /// are attributed to it, write failures to the opposite endpoint.
    pub source: Side,
    /// Maximum time the source may stay silent, in milliseconds.
    pub idle_timeout_ms: u64,
    /// The moment the pump was created or data last arrived.
    pub last_activity: u64,
    /// Absolute deadline by which the next data must arrive.
    pub deadline: u64,
    /// The latest clock value the pump has seen.
    pub clock: u64,
    /// Number of payload bytes written in full to the destination.
    pub bytes_forwarded: u64,
    /// The chunk received but not yet written (nonempty only while writing).
    pub pending: Vec<u8>,
    pub phase: PumpPhase,
    /// Every payload byte received from the source, in order.
    pub received: Ghost<Seq<u8>>,
    /// Every payload byte written in full to the destination, in order.
    pub forwarded: Ghost<Seq<u8>>,
}

impl Pump {
    /// Internal consistency: the bytes received are exactly the bytes
    /// forwarded followed by the pending chunk; the deadline always lies one
    /// full idle timeout after the last receipt of data; the clock never
    /// runs backwards past it.
    pub open spec fn wf(self) -> bool {
        &&& self.received@ == self.forwarded@ + self.pending@
        &&& self.bytes_forwarded == self.forwarded@.len()
        &&& self.received@.len() <= u64::MAX
        &&& self.deadline == self.last_activity + self.idle_timeout_ms
        &&& self.clock >= self.last_activity
        &&& (self.phase is Reading ==> self.pending@.len() == 0)
        &&& (self.phase is Writing ==> self.pending@.len() > 0)
        &&& (match self.phase {
            PumpPhase::Done(c) => c == EndCause::WriteError || self.pending@.len() == 0,
            _ => true,
        })
    }

    /// A fresh pump for one direction, created at time `now`: nothing
    /// received, nothing forwarded, first deadline a full idle timeout away.
    pub fn new(source: Side, idle_timeout_ms: u64, now: u64) -> (p: Pump)
        requires
            now + idle_timeout_ms <= u64::MAX,
        ensures
            p.wf(),
            p.source == source,
            p.idle_timeout_ms == idle_timeout_ms,
            p.phase is Reading,
            p.last_activity == now,
            p.deadline == now + idle_timeout_ms,
            p.clock == now,
            p.bytes_forwarded == 0,
            p.received@ == Seq::<u8>::empty(),
            p.forwarded@ == Seq::<u8>::empty(),
    {
        let p = Pump {
            source,
            idle_timeout_ms,
            last_activity: now,
            deadline: now + idle_timeout_ms,
            clock: now,
            bytes_forwarded: 0,
            pending: Vec::new(),
            phase: PumpPhase::Reading,
            received: Ghost(Seq::empty()),
            forwarded: Ghost(Seq::empty()),
        };
        proof {
            assert(p.received@ =~= p.forwarded@ + p.pending@);
        }
        p
    }

    /// A read on the source delivered `chunk` (nonempty) at time `now`. The
    /// chunk becomes the pending write, and the idle deadline is reset to a
    /// full idle timeout after `now` — receipt of data is the only event
    /// that resets it, and the reset never moves the deadline backwards.
    pub fn on_data(&mut self, chunk: Vec<u8>, now: u64)
        requires
            old(self).wf(),
            old(self).phase is Reading,
            chunk@.len() > 0,
            now >= old(self).clock,
            now + old(self).idle_timeout_ms <= u64::MAX,
            old(self).received@.len() + chunk@.len() <= u64::MAX,
        ensures
            final(self).wf(),
            final(self).phase is Writing,
            final(self).received@ == old(self).received@ + chunk@,
            final(self).forwarded@ == old(self).forwarded@,
            final(self).pending@ == chunk@,
            final(self).bytes_forwarded == old(self).bytes_forwarded,
            final(self).last_activity == now,
            final(self).deadline == now + old(self).idle_timeout_ms,
            final(self).deadline >= old(self).deadline,
            final(self).source == old(self).source,
            final(self).idle_timeout_ms == old(self).idle_timeout_ms,
    {
        self.received = Ghost(self.received@ + chunk@);
        self.pending = chunk;
        self.last_activity = now;
        self.deadline = now + self.idle_timeout_ms;
        self.clock = now;
        self.phase = PumpPhase::Writing;
    }

    /// The chunk the pump is waiting to see written in full.
    pub fn pending_chunk(&self) -> (r: &Vec<u8>)
        ensures
            r@ == self.pending@,
    {
        &self.pending
    }

    /// The pending chunk was written in full to the destination: it counts
    /// as forwarded, and the pump goes back to reading. The idle deadline is
    /// untouched — only receipt of data resets it.
    pub fn on_write_ok(&mut self)
        requires
            old(self).wf(),
            old(self).phase is Writing,
        ensures
            final(self).wf(),
            final(self).phase is Reading,
            final(self).received@ == old(self).received@,
            final(self).forwarded@ == old(self).forwarded@ + old(self).pending@,
            final(self).forwarded@ == old(self).received@,
            final(self).bytes_forwarded == old(self).bytes_forwarded + old(self).pending@.len(),
            final(self).deadline == old(self).deadline,
            final(self).last_activity == old(self).last_activity,
            final(self).source == old(self).source,
            final(self).idle_timeout_ms == old(self).idle_timeout_ms,
    {
        proof {
            assert(old(self).received@.len() == old(self).forwarded@.len() + old(self).pending@.len());
        }
        self.forwarded = Ghost(self.forwarded@ + self.pending@);
        self.bytes_forwarded = self.bytes_forwarded + self.pending.len() as u64;
        self.pending = Vec::new();
        self.phase = PumpPhase::Reading;
        proof {
            assert(self.received@ =~= self.forwarded@ + self.pending@);
        }
    }

    /// The write of the pending chunk failed: the pump ends with a write
    /// error. The failed chunk was received but never forwarded.
    pub fn on_write_err(&mut self)
        requires
            old(self).wf(),
            old(self).phase is Writing,
        ensures
            final(self).wf(),
            final(self).phase == PumpPhase::Done(EndCause::WriteError),
            final(self).received@ == old(self).received@,
            final(self).forwarded@ == old(self).forwarded@,
            final(self).bytes_forwarded == old(self).bytes_forwarded,
            final(self).source == old(self).source,
    {
        self.phase = PumpPhase::Done(EndCause::WriteError);
    }

    /// A read on the source returned zero bytes: the peer closed cleanly.
    /// Every byte received has already been forwarded.
    pub fn on_eof(&mut self)
        requires
            old(self).wf(),
            old(self).phase is Reading,
        ensures
            final(self).wf(),
            final(self).phase == PumpPhase::Done(EndCause::CleanEof),
            final(self).received@ == old(self).received@,
            final(self).forwarded@ == old(self).received@,
            final(self).bytes_forwarded == old(self).bytes_forwarded,
            final(self).source == old(self).source,
    {
        proof {
            assert(self.received@ =~= self.forwarded@);
        }
        self.phase = PumpPhase::Done(EndCause::CleanEof);
    }

    /// A read on the source failed: the pump ends with a read error
    /// attributed to the source.
    pub fn on_read_err(&mut self)
        requires
            old(self).wf(),
            old(self).phase is Reading,
        ensures
            final(self).wf(),
            final(self).phase == PumpPhase::Done(EndCause::ReadError),
            final(self).received@ == old(self).received@,
            final(self).forwarded@ == old(self).received@,
            final(self).bytes_forwarded == old(self).bytes_forwarded,
            final(self).source == old(self).source,
    {
        proof {
            assert(self.received@ =~= self.forwarded@);
        }
        self.phase = PumpPhase::Done(EndCause::ReadError);
    }

    /// The idle deadline elapsed at time `now` before any data arrived: the
    /// pump ends with an idle timeout attributed to the source. This event
    /// is only legal once the deadline has in fact passed, so a pump can
    /// never time out before a full idle timeout of silence.
    pub fn on_timeout(&mut self, now: u64)
        requires
            old(self).wf(),
            old(self).phase is Reading,
            now >= old(self).clock,
            now >= old(self).deadline,
        ensures
            final(self).wf(),
            final(self).phase == PumpPhase::Done(EndCause::IdleTimeout),
            final(self).received@ == old(self).received@,
            final(self).forwarded@ == old(self).received@,
            final(self).bytes_forwarded == old(self).bytes_forwarded,
            final(self).source == old(self).source,
            now >= old(self).last_activity + old(self).idle_timeout_ms,
    {
        proof {
            assert(self.received@ =~= self.forwarded@);
        }
        self.clock = now;
        self.phase = PumpPhase::Done(EndCause::IdleTimeout);
    }

    /// Milliseconds left until the idle deadline at time `now` (zero once
    /// the deadline has passed): what the caller hands to its timed read.
    pub fn remaining_ms(&self, now: u64) -> (r: u64)
        ensures
            r == (if now >= self.deadline { 0int } else { self.deadline - now }),
    {
        if now >= self.deadline {
            0
        } else {
            self.deadline - now
        }
    }

    /// Whether the pump has terminated, and why.
    pub fn end_cause(&self) -> (r: Option<EndCause>)
        ensures
            r == (match self.phase {
                PumpPhase::Done(c) => Some(c),
                _ => None::<EndCause>,
            }),
    {
        match self.phase {
            PumpPhase::Done(c) => Some(c),
            _ => None,
        }
    }
}

/// Order is never lost: at every moment, the bytes forwarded to the
/// destination are exactly a prefix of the bytes received from the source.
pub proof fn lemma_forwarded_is_prefix(p: Pump)
    requires
        p.wf(),
    ensures
        p.forwarded@.is_prefix_of(p.received@),
        p.bytes_forwarded <= p.received@.len(),
{
    assert(p.forwarded@ =~= p.received@.take(p.forwarded@.len() as int));
}

/// A pump that ended with a clean end-of-stream forwarded to its destination
/// exactly the bytes its source sent, byte for byte and in order, and its
/// byte count is their number. This holds of either direction: for the
/// client-to-upstream pump it says a well-behaved upstream receives exactly
/// the client's payload; symmetrically for upstream-to-client.
pub proof fn lemma_clean_eof_forwards_exactly(p: Pump)
    requires
        p.wf(),
        p.phase == PumpPhase::Done(EndCause::CleanEof),
    ensures
        p.forwarded@ == p.received@,
        p.bytes_forwarded == p.received@.len(),
{
    assert(p.forwarded@ =~= p.received@);
}

/// The idle deadline always lies one full idle timeout after the moment data
/// last arrived (or the pump was created): together with the precondition of
/// `on_timeout`, a pump can only time out after at least `idle_timeout_ms`
/// milliseconds of silence on its source — never earlier.
pub proof fn lemma_deadline_is_full_timeout(p: Pump)
    requires
        p.wf(),
    ensures
        p.deadline == p.last_activity + p.idle_timeout_ms,
{
}

} // verus!
