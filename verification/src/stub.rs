//! A simulated transport: one register-mapped device on an otherwise
//! empty bus.
//!
//! The stub answers exactly like a register file behind the combined
//! write-then-read exchange. Addressing any other device fails in the
//! write phase; selecting a register past the device's window fails in
//! the write phase; reading past the window fails in the read phase,
//! after the write phase — and so a partial write — has taken effect.
//! Every exchange, failed ones included, is recorded in an inspectable
//! log of complete transactions, which is what makes the stub useful
//! for observing that exchanges from different bus handles never
//! interleave.
//!
//! The registers power up zeroed, and the channel's invariant states
//! that its whole history follows the device model from that state. So
//! code that only sees the stub through the [`Channel`] contract — the
//! driver's register operations, say — still pins every outcome:
//! [`lemma_stub_outcome_pinned`] recovers, from any one appended
//! record, exactly what the device answered and how its registers
//! moved.

use vstd::prelude::*;

use crate::bus::outcome_of;
use crate::bus::Channel;
use crate::bus::Transaction;
use crate::bus::TransportError;
use crate::icm42670p::Register;

verus! {

/// How many registers the simulated device exposes; offsets `0` up to
/// one below this select a register.
pub const REG_WINDOW: usize = 128;

/// The 7-bit address the simulated device answers at: the AD0 address
/// of the part the driver is written for.
pub const STUB_DEVICE_ADDR: u8 = 0x68;

/// Whether the device at `device` accepts the write phase of an
/// exchange directed at `addr` with payload `write`: the address must
/// match, a register must be selected, and every data byte must fall
/// inside the register window.
pub open spec fn stub_accepts_write(device: u8, addr: u8, write: Seq<u8>) -> bool {
    &&& addr == device
    &&& write.len() >= 1
    &&& write[0] + write.len() - 1 <= REG_WINDOW
}

/// The register file after an accepted write: payload byte `j` (for
/// `j >= 1`) lands in the register at the selected offset plus
/// `j - 1`; everything else keeps its value.
pub open spec fn apply_write(regs: Seq<u8>, write: Seq<u8>) -> Seq<u8>
    recommends
        write.len() >= 1,
{
    Seq::new(
        regs.len(),
        |i: int|
            if write[0] <= i < write[0] + write.len() - 1 {
                write[i - write[0] + 1]
            } else {
                regs[i]
            },
    )
}

/// The register file after one exchange: changed only by an accepted
/// write phase, whether or not the read phase then fails.
pub open spec fn stub_post_regs(regs: Seq<u8>, device: u8, addr: u8, write: Seq<u8>) -> Seq<u8> {
    if stub_accepts_write(device, addr, write) {
        apply_write(regs, write)
    } else {
        regs
    }
}

/// The outcome of one exchange: a write-phase failure if the write is
/// not accepted, a read-phase failure if the read runs past the
/// window, and otherwise the requested bytes starting at the selected
/// offset, as they stand after the write phase.
pub open spec fn stub_outcome(
    regs: Seq<u8>,
    device: u8,
    addr: u8,
    write: Seq<u8>,
    read_len: nat,
) -> Result<Seq<u8>, TransportError> {
    if !stub_accepts_write(device, addr, write) {
        Err(TransportError::WritePhase)
    } else if read_len == 0 {
        Ok(Seq::empty())
    } else if write[0] + read_len > REG_WINDOW {
        Err(TransportError::ReadPhase)
    } else {
        Ok(apply_write(regs, write).subrange(write[0] as int, write[0] + read_len))
    }
}

/// The register file that a history of exchanges leaves behind,
/// starting from the powered-up all-zero state.
pub open spec fn replay_regs(h: Seq<Transaction>) -> Seq<u8>
    decreases h.len(),
{
    if h.len() == 0 {
        Seq::new(REG_WINDOW as nat, |i: int| 0u8)
    } else {
        stub_post_regs(replay_regs(h.drop_last()), STUB_DEVICE_ADDR, h.last().addr, h.last().wrote)
    }
}

/// Whether every recorded outcome in a history is the one the device
/// model gives on the registers the earlier exchanges left behind.
pub open spec fn follows_device_model(h: Seq<Transaction>) -> bool
    decreases h.len(),
{
    h.len() == 0 || {
        &&& follows_device_model(h.drop_last())
        &&& h.last().outcome == stub_outcome(
            replay_regs(h.drop_last()),
            STUB_DEVICE_ADDR,
            h.last().addr,
            h.last().wrote,
            h.last().read_len,
        )
    }
}

/// One recorded exchange, kept in executable form so a test can
/// inspect it.
#[derive(Debug)]
pub struct LogEntry {
    /// The device address the exchange was directed at.
    pub addr: u8,
    /// The bytes of the write phase.
    pub wrote: Vec<u8>,
    /// How many bytes the read phase asked for.
    pub read_len: usize,
    /// The bytes read back, or the failure.
    pub outcome: Result<Vec<u8>, TransportError>,
}

impl View for LogEntry {
    type V = Transaction;

    open spec fn view(&self) -> Transaction {
        Transaction {
            addr: self.addr,
            wrote: self.wrote@,
            read_len: self.read_len as nat,
            outcome: match self.outcome {
                Ok(d) => Ok(d@),
                Err(e) => Err(e),
            },
        }
    }
}

/// Copy a byte vector, element by element.
fn copy_bytes(src: &Vec<u8>) -> (r: Vec<u8>)
    ensures
        r@ == src@,
{
    let mut r: Vec<u8> = Vec::new();
    let mut i: usize = 0;
    while i < src.len()
        invariant
            i <= src.len(),
            r@ == src@.subrange(0, i as int),
        decreases src.len() - i,
    {
        r.push(src[i]);
        i = i + 1;
        proof {
            assert(r@ =~= src@.subrange(0, i as int));
        }
    }
    proof {
        assert(r@ =~= src@);
    }
    r
}

/// The simulated channel: the device's register file and the log of
/// every exchange so far.
pub struct StubChannel {
    regs: Vec<u8>,
    log: Vec<LogEntry>,
}

impl StubChannel {
    /// The current register file.
    pub closed spec fn regs_view(&self) -> Seq<u8> {
        self.regs@
    }

    /// A fresh channel with the one device at [`STUB_DEVICE_ADDR`],
    /// all registers zero, nothing on the wire yet. A test programs
    /// device contents — an identity register, say — by writing them
    /// over the bus before the run it observes.
    pub fn new() -> (r: Self)
        ensures
            r.inv(),
            r.regs_view() == Seq::new(REG_WINDOW as nat, |i: int| 0u8),
            r.history() == Seq::<Transaction>::empty(),
    {
        let mut regs: Vec<u8> = Vec::new();
        let mut i: usize = 0;
        while i < REG_WINDOW
            invariant
                i <= REG_WINDOW,
                regs@ == Seq::new(i as nat, |j: int| 0u8),
            decreases REG_WINDOW - i,
        {
            regs.push(0);
            i = i + 1;
            proof {
                assert(regs@ =~= Seq::new(i as nat, |j: int| 0u8));
            }
        }
        let r = StubChannel { regs, log: Vec::new() };
        proof {
            assert(r.history() =~= Seq::<Transaction>::empty());
        }
        r
    }

    /// The log of every exchange performed so far, oldest first; its
    /// entries are the channel's history in executable form.
    pub fn log(&self) -> (r: &Vec<LogEntry>)
        ensures
            r@.map_values(|e: LogEntry| e@) == self.history(),
    {
        &self.log
    }

    /// One exchange against the register file, with its exact
    /// device-model contract; [`Channel::transact`] forwards here.
    pub fn exchange(&mut self, addr: u8, write_bytes: &Vec<u8>, read_len: usize) -> (r: Result<
        Vec<u8>,
        TransportError,
    >)
        requires
            old(self).inv(),
        ensures
            final(self).inv(),
            final(self).regs_view() == stub_post_regs(
                old(self).regs_view(),
                STUB_DEVICE_ADDR,
                addr,
                write_bytes@,
            ),
            outcome_of(r) == stub_outcome(
                old(self).regs_view(),
                STUB_DEVICE_ADDR,
                addr,
                write_bytes@,
                read_len as nat,
            ),
            final(self).history() == old(self).history().push(
                (Transaction {
                    addr,
                    wrote: write_bytes@,
                    read_len: read_len as nat,
                    outcome: outcome_of(r),
                }),
            ),
            r matches Ok(d) ==> d.len() == read_len,
    {
        let ghost regs0 = self.regs@;
        let outcome: Result<Vec<u8>, TransportError>;
        if addr != STUB_DEVICE_ADDR || write_bytes.len() == 0 {
            outcome = Err(TransportError::WritePhase);
        } else {
            let off = write_bytes[0] as usize;
            if off > REG_WINDOW || write_bytes.len() - 1 > REG_WINDOW - off {
                outcome = Err(TransportError::WritePhase);
            } else {
                let mut j: usize = 1;
                while j < write_bytes.len()
                    invariant
                        1 <= j <= write_bytes@.len(),
                        off == write_bytes@[0],
                        off + write_bytes@.len() - 1 <= REG_WINDOW,
                        self.regs@.len() == regs0.len(),
                        regs0.len() == REG_WINDOW,
                        self.log@ == old(self).log@,
                        forall|i: int|
                            0 <= i < REG_WINDOW ==> self.regs@[i] == (if off <= i < off + j - 1 {
                                write_bytes@[i - off + 1]
                            } else {
                                regs0[i]
                            }),
                    decreases write_bytes.len() - j,
                {
                    self.regs[off + j - 1] = write_bytes[j];
                    j = j + 1;
                }
                proof {
                    assert(self.regs@ =~= apply_write(regs0, write_bytes@));
                }
                if read_len == 0 {
                    outcome = Ok(Vec::new());
                } else if read_len > REG_WINDOW - off {
                    outcome = Err(TransportError::ReadPhase);
                } else {
                    let mut data: Vec<u8> = Vec::new();
                    let mut k: usize = 0;
                    while k < read_len
                        invariant
                            k <= read_len,
                            off + read_len <= REG_WINDOW,
                            self.regs@.len() == REG_WINDOW,
                            self.log@ == old(self).log@,
                            self.regs@ == apply_write(regs0, write_bytes@),
                            regs0.len() == REG_WINDOW,
                            data@ == self.regs@.subrange(off as int, off + k),
                        decreases read_len - k,
                    {
                        let b = self.regs[off + k];
                        data.push(b);
                        k = k + 1;
                        proof {
                            assert(data@ =~= self.regs@.subrange(off as int, off + k));
                        }
                    }
                    outcome = Ok(data);
                }
            }
        }
        let logged: Result<Vec<u8>, TransportError> = match &outcome {
            Ok(d) => Ok(copy_bytes(d)),
            Err(e) => Err(*e),
        };
        let entry = LogEntry {
            addr,
            wrote: copy_bytes(write_bytes),
            read_len,
            outcome: logged,
        };
        self.log.push(entry);
        proof {
            let t = Transaction {
                addr,
                wrote: write_bytes@,
                read_len: read_len as nat,
                outcome: outcome_of(outcome),
            };
            assert(self.history() =~= old(self).history().push(t));
            if stub_accepts_write(STUB_DEVICE_ADDR, addr, write_bytes@) {
                assert(self.regs@ =~= stub_post_regs(regs0, STUB_DEVICE_ADDR, addr, write_bytes@));
            }
            assert(self.history().drop_last() =~= old(self).history());
            assert(self.history().last() == t);
        }
        outcome
    }
}

impl Channel for StubChannel {
    /// Well-formedness: the register file fills the window, is exactly
    /// what the recorded history leaves behind from the all-zero
    /// power-up state, and every recorded outcome follows the device
    /// model.
    closed spec fn inv(&self) -> bool {
        &&& self.regs@.len() == REG_WINDOW
        &&& self.regs@ == replay_regs(self.history())
        &&& follows_device_model(self.history())
    }

    /// The recorded log, viewed as transactions.
    closed spec fn history(&self) -> Seq<Transaction> {
        self.log@.map_values(|e: LogEntry| e@)
    }

    fn transact(&mut self, addr: u8, write_bytes: &Vec<u8>, read_len: usize) -> (r: Result<
        Vec<u8>,
        TransportError,
    >) {
        self.exchange(addr, write_bytes, read_len)
    }
}

/// The simulated channel decides nothing freely: from the [`Channel`]
/// contract alone — one record appended, both states well formed — the
/// record's outcome is exactly the device model's answer on the
/// registers the earlier history left behind, and the registers move
/// exactly as the model says. This holds however the exchange was
/// reached, a driver's generic register operation included.
pub proof fn lemma_stub_outcome_pinned(pre: StubChannel, post: StubChannel, t: Transaction)
    requires
        pre.inv(),
        post.inv(),
        post.history() == pre.history().push(t),
    ensures
        t.outcome == stub_outcome(pre.regs_view(), STUB_DEVICE_ADDR, t.addr, t.wrote, t.read_len),
        post.regs_view() == stub_post_regs(pre.regs_view(), STUB_DEVICE_ADDR, t.addr, t.wrote),
{
    assert(post.history().drop_last() =~= pre.history());
    assert(post.history().last() == t);
}

/// Round trip through the register protocol against the simulated
/// device: a register write (the two-byte payload `write_register`
/// puts on the wire) followed by a read of the same register (the
/// one-byte payload of `read_register`) answers exactly the byte that
/// was written, for every register of the device.
pub proof fn lemma_register_round_trip(regs: Seq<u8>, dev: u8, reg: Register, v: u8)
    requires
        regs.len() == REG_WINDOW,
    ensures
        ({
            let after = stub_post_regs(regs, dev, dev, seq![reg.addr_spec(), v]);
            stub_outcome(after, dev, dev, seq![reg.addr_spec()], 1) == Ok::<
                Seq<u8>,
                TransportError,
            >(seq![v])
        }),
{
    let off = reg.addr_spec();
    assert(off < REG_WINDOW);
    let after = stub_post_regs(regs, dev, dev, seq![off, v]);
    assert(after == apply_write(regs, seq![off, v]));
    assert(after[off as int] == v);
    assert(apply_write(after, seq![off]) =~= after);
    assert(apply_write(after, seq![off]).subrange(off as int, off + 1) =~= seq![v]);
}

} // verus!
