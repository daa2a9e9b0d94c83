//! The transaction channel and the bus arbiter.
//!
//! A channel is a physical two-wire bus that performs one atomic
//! exchange: write some bytes to a 7-bit device address, then read a
//! requested number of bytes back. The arbiter owns one channel and
//! hands out handles; every transaction goes through the arbiter, so a
//! transaction started through one handle is finished, write phase and
//! read phase both, before any other handle's transaction can begin.

use vstd::prelude::*;

verus! {

/// A bus-level failure, split by the phase in which the device stopped
/// acknowledging, so a caller can tell whether a partial write may have
/// taken effect.
#[derive(Clone, Copy, Debug, PartialEq, Eq, Structural)]
pub enum TransportError {
    /// The device did not acknowledge the address or a written byte;
    /// the read phase was never entered.
    WritePhase,
    /// The write phase completed, but the read phase failed; any bytes
    /// of the write phase have taken effect.
    ReadPhase,
}

/// One complete exchange on the channel: the address and bytes of the
/// write phase, the number of bytes requested in the read phase, and
/// the outcome. A channel's history is a sequence of these records;
/// each record is atomic, so two callers' byte sequences never
/// interleave within it.
#[verifier::ext_equal]
pub struct Transaction {
    /// The 7-bit device address the exchange was directed at.
    pub addr: u8,
    /// The bytes of the write phase.
    pub wrote: Seq<u8>,
    /// How many bytes the read phase asked for.
    pub read_len: nat,
    /// The bytes read back, or the failure.
    pub outcome: Result<Seq<u8>, TransportError>,
}

/// The outcome field of a [`Transaction`], as recorded for a concrete
/// result.
pub open spec fn outcome_of(r: Result<Vec<u8>, TransportError>) -> Result<Seq<u8>, TransportError> {
    match r {
        Ok(d) => Ok(d@),
        Err(e) => Err(e),
    }
}

/// A transport able to perform the one operation every register access
/// is built from: an atomic write-then-read exchange with one device.
///
/// The history of transactions is the channel's observable model: each
/// `transact` call appends exactly one complete record, which is what
/// makes transactions through the arbiter mutually exclusive. What a
/// device answers is not constrained here; a concrete channel (such as
/// [`crate::stub::StubChannel`]) pins the outcomes through its
/// invariant.
pub trait Channel: Sized {
    /// Well-formedness of the channel state.
    spec fn inv(&self) -> bool;

    /// Every exchange performed so far, oldest first.
    spec fn history(&self) -> Seq<Transaction>;

    /// Write `write_bytes` to the device at `addr`, then read exactly
    /// `read_len` bytes, as one atomic exchange.
    fn transact(&mut self, addr: u8, write_bytes: &Vec<u8>, read_len: usize) -> (r: Result<
        Vec<u8>,
        TransportError,
    >)
        requires
            old(self).inv(),
        ensures
            final(self).inv(),
            final(self).history() == old(self).history().push(
                (Transaction {
                    addr,
                    wrote: write_bytes@,
                    read_len: read_len as nat,
                    outcome: outcome_of(r),
                }),
            ),
            r matches Ok(d) ==> d.len() == read_len,
    ;
}

/// A capability onto the shared channel, issued by the arbiter. A
/// handle does not partition the address space: any handle may address
/// any device on the bus.
#[derive(Clone, Copy, Debug, PartialEq, Eq, Structural)]
pub struct BusHandle {
    /// The position of this handle in the order the arbiter issued
    /// them.
    pub id: u64,
}

/// Owns one channel and shares it among any number of handles.
///
/// Every transaction is a single call that holds the arbiter
/// exclusively for its duration and appends one complete record to the
/// channel's history, so transactions from different handles are
/// serialized and never interleave.
pub struct BusArbiter<C: Channel> {
    channel: C,
    issued: u64,
}

impl<C: Channel> BusArbiter<C> {
    /// Well-formedness: the owned channel is well formed.
    pub closed spec fn inv(&self) -> bool {
        self.channel.inv()
    }

    /// The owned channel's transaction history.
    pub closed spec fn history(&self) -> Seq<Transaction> {
        self.channel.history()
    }

    /// How many handles have been issued so far.
    pub closed spec fn handles_issued(&self) -> u64 {
        self.issued
    }

    /// Take ownership of the channel; no handles are issued yet.
    pub fn new(channel: C) -> (r: Self)
        requires
            channel.inv(),
        ensures
            r.inv(),
            r.history() == channel.history(),
            r.handles_issued() == 0,
    {
        BusArbiter { channel, issued: 0 }
    }

    /// The number of handles issued so far, for callers that need to
    /// stay below the counter's limit.
    pub fn handles_count(&self) -> (r: u64)
        ensures
            r == self.handles_issued(),
    {
        self.issued
    }

    /// Read-only access to the owned channel, for inspecting an
    /// instrumented transport after the fact.
    pub fn channel(&self) -> (r: &C)
        ensures
            r.history() == self.history(),
            self.inv() ==> r.inv(),
    {
        &self.channel
    }

    /// Issue one more handle onto the shared channel. The channel
    /// itself is untouched.
    pub fn acquire_handle(&mut self) -> (h: BusHandle)
        requires
            old(self).inv(),
            old(self).handles_issued() < u64::MAX,
        ensures
            final(self).inv(),
            final(self).history() == old(self).history(),
            final(self).handles_issued() == old(self).handles_issued() + 1,
            h.id == old(self).handles_issued(),
    {
        let h = BusHandle { id: self.issued };
        self.issued = self.issued + 1;
        h
    }

    /// Perform one atomic write-then-read exchange on behalf of the
    /// given handle. Exactly one complete transaction record is
    /// appended; no other handle's transaction can fall between its
    /// write phase and its read phase.
    pub fn transact(
        &mut self,
        _handle: &BusHandle,
        addr: u8,
        write_bytes: &Vec<u8>,
        read_len: usize,
    ) -> (r: Result<Vec<u8>, TransportError>)
        requires
            old(self).inv(),
        ensures
            final(self).inv(),
            final(self).history() == old(self).history().push(
                (Transaction {
                    addr,
                    wrote: write_bytes@,
                    read_len: read_len as nat,
                    outcome: outcome_of(r),
                }),
            ),
            final(self).handles_issued() == old(self).handles_issued(),
            r matches Ok(d) ==> d.len() == read_len,
    {
        self.channel.transact(addr, write_bytes, read_len)
    }
}

/// Transactions serialize: two exchanges performed in turn leave the
/// history extended by their two complete records, in order, whichever
/// handles made them. There is no point between the write phase and the
/// read phase of one record at which the other could be inserted.
pub proof fn lemma_transactions_serialize(
    pre: Seq<Transaction>,
    first: Transaction,
    second: Transaction,
)
    ensures
        pre.push(first).push(second) == pre + seq![first, second],
        pre.push(first).push(second)[pre.len() as int] == first,
        pre.push(first).push(second)[pre.len() as int + 1] == second,
{
    assert(pre.push(first).push(second) =~= pre + seq![first, second]);
}

} // verus!
