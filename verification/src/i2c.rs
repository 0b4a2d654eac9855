//! The three I2C transport variants.
//!
//! Every variant offers the same three operations. `write` sends one command
//! frame, unmodified, to the fixed device address. `wait_ready` finds out
//! whether a response frame is available: the status-byte variant reads one
//! status byte, the interrupt variant samples the line, and both hand a
//! not-yet-ready answer back to the caller, who owns the retry cadence. The
//! looping variant instead repeats the status read internally and returns
//! only once the device is ready or the bus fails. `read` fetches a response
//! frame: one atomic transaction that supplies one framing byte followed by
//! the payload; the framing byte is discarded.
//!
//! All contracts are stated over the bus history of [`crate::bus::BusOp`]
//! values: what each call appends says exactly which bytes crossed the bus
//! and that any bus error is handed to the caller unchanged.

use vstd::prelude::*;

use crate::bus::{BusOp, I2cBus, IrqPin};

verus! {

/// Status byte the device reports once a response frame is available.
pub const PN532_I2C_READY: u8 = 0x01;

/// Bus address of the device; every primitive is addressed to it.
pub const I2C_ADDRESS: u8 = 0x24;

/// Outcome of one non-blocking readiness poll.
pub enum Readiness<E> {
    /// The device has a response frame available.
    Ready,
    /// The device is not ready yet; the caller decides when to poll again.
    Pending,
    /// The readiness check itself failed with a bus error.
    Failed(E),
}

/// True exactly when `status` is the ready sentinel.
pub fn is_ready_status(status: u8) -> (r: bool)
    ensures
        r == (status == PN532_I2C_READY),
{
    status == PN532_I2C_READY
}

/// The bus record of one successful single-byte status poll that observed `b`.
pub open spec fn status_read_op<E>(b: u8) -> BusOp<E> {
    BusOp::Read { addr: I2C_ADDRESS, data: seq![b] }
}

/// The bus records of a run of status polls that observed `polls`, in order.
pub open spec fn status_reads<E>(polls: Seq<u8>) -> Seq<BusOp<E>> {
    polls.map_values(|b: u8| status_read_op::<E>(b))
}

/// Every byte in `polls` reported "no response available yet".
pub open spec fn all_pending(polls: Seq<u8>) -> bool {
    forall|i: int| 0 <= i < polls.len() ==> polls[i] != PN532_I2C_READY
}

/// A payload as it crosses the bus: one framing byte, then the payload.
pub open spec fn framed(b: u8, payload: Seq<u8>) -> Seq<u8> {
    seq![b] + payload
}

/// The bus record of one successful payload read whose framing byte was `b`.
pub open spec fn payload_read_op<E>(b: u8, payload: Seq<u8>) -> BusOp<E> {
    BusOp::Read { addr: I2C_ADDRESS, data: framed(b, payload) }
}

/// `post` extends `pre` by exactly one payload read: a single atomic
/// transaction at the device address that supplied one framing byte followed
/// by `payload`.
pub open spec fn payload_read<E>(pre: Seq<BusOp<E>>, post: Seq<BusOp<E>>, payload: Seq<u8>) -> bool {
    exists|b: u8| post == pre.push(payload_read_op::<E>(b, payload))
}

/// `post` extends `pre` by the status polls of one blocking wait that ended
/// ready: at least one single-byte poll, all but the last not ready, the
/// last one the ready sentinel.
pub open spec fn wait_ready_ok<E>(pre: Seq<BusOp<E>>, post: Seq<BusOp<E>>) -> bool {
    exists|polls: Seq<u8>|
        {
            &&& polls.len() >= 1
            &&& all_pending(polls.drop_last())
            &&& polls.last() == PN532_I2C_READY
            &&& post == pre + #[trigger] status_reads::<E>(polls)
        }
}

/// `post` extends `pre` by the status polls of one blocking wait that ended
/// in a bus error: zero or more not-ready polls, then the failed primitive
/// that surfaced `err`.
pub open spec fn wait_ready_failed<E>(pre: Seq<BusOp<E>>, post: Seq<BusOp<E>>, err: E) -> bool {
    exists|polls: Seq<u8>|
        {
            &&& all_pending(polls)
            &&& post == (pre + #[trigger] status_reads::<E>(polls)).push(
                (BusOp::Failed { err }),
            )
        }
}

/// Send `frame` to the device in one bus write; shared by every variant.
fn write_frame<B: I2cBus>(bus: &mut B, frame: &[u8]) -> (r: Result<(), B::BusError>)
    ensures
        r is Ok ==> final(bus).ops() == old(bus).ops().push(
            (BusOp::Write { addr: I2C_ADDRESS, data: frame@ }),
        ),
        r matches Err(e) ==> final(bus).ops() == old(bus).ops().push(
            (BusOp::Failed { err: e }),
        ),
{
    bus.write_bytes(I2C_ADDRESS, frame)
}

/// Fetch one response frame into `buf`, in place: one atomic transaction of
/// `buf.len() + 1` bytes whose leading framing byte is discarded; shared by
/// every variant.
#[verifier::loop_isolation(false)]
fn read_frame<B: I2cBus>(bus: &mut B, buf: &mut Vec<u8>) -> (r: Result<(), B::BusError>)
    requires
        old(buf)@.len() < usize::MAX,
    ensures
        final(buf)@.len() == old(buf)@.len(),
        r is Ok ==> payload_read(old(bus).ops(), final(bus).ops(), final(buf)@),
        r matches Err(e) ==> final(bus).ops() == old(bus).ops().push(
            (BusOp::Failed { err: e }),
        ) && final(buf)@ == old(buf)@,
{
    let n = buf.len();
    match bus.read_bytes(I2C_ADDRESS, n + 1) {
        Err(e) => Err(e),
        Ok(raw) => {
            buf.clear();
            let mut i: usize = 1;
            while i < raw.len()
                invariant
                    1 <= i <= raw@.len(),
                    buf@ == raw@.subrange(1, i as int),
                decreases raw@.len() - i,
            {
                buf.push(raw[i]);
                i = i + 1;
            }
            proof {
                assert(buf@ =~= raw@.skip(1));
                assert(raw@ =~= framed(raw@[0], buf@));
                assert(bus.ops() == old(bus).ops().push(
                    payload_read_op::<B::BusError>(raw@[0], buf@),
                ));
            }
            Ok(())
        },
    }
}

/// Read one status byte from the device; `Ok(b)` appends the poll that
/// observed `b` to the history, a failure appends the failed primitive.
fn poll_status<B: I2cBus>(bus: &mut B) -> (r: Result<u8, B::BusError>)
    ensures
        r matches Ok(b) ==> final(bus).reads_left() < old(bus).reads_left() && final(bus).ops()
            == old(bus).ops().push(status_read_op::<B::BusError>(b)),
        r matches Err(e) ==> final(bus).ops() == old(bus).ops().push(
            (BusOp::Failed { err: e }),
        ),
{
    match bus.read_bytes(I2C_ADDRESS, 1) {
        Err(e) => Err(e),
        Ok(status) => {
            let b = status[0];
            proof {
                assert(status@ =~= seq![b]);
            }
            Ok(b)
        },
    }
}

/// Status-byte polling transport: readiness is decided by reading one status
/// byte from the device.
pub struct I2CInterface<B: I2cBus> {
    /// The exclusively owned bus handle.
    pub i2c: B,
}

impl<B: I2cBus> I2CInterface<B> {
    /// Send one command frame, unmodified, to the device address.
    ///
    /// A bus error is handed back unchanged.
    pub fn write(&mut self, frame: &[u8]) -> (r: Result<(), B::BusError>)
        ensures
            r is Ok ==> final(self).i2c.ops() == old(self).i2c.ops().push(
                (BusOp::Write { addr: I2C_ADDRESS, data: frame@ }),
            ),
            r matches Err(e) ==> final(self).i2c.ops() == old(self).i2c.ops().push(
                (BusOp::Failed { err: e }),
            ),
    {
        write_frame(&mut self.i2c, frame)
    }

    /// One non-blocking readiness poll: reads a single status byte and
    /// reports `Ready` exactly when it is the ready sentinel, `Pending` for
    /// every other byte. A bus error is reported as `Failed`, unchanged,
    /// never as `Pending`.
    pub fn wait_ready(&mut self) -> (r: Readiness<B::BusError>)
        ensures
            r is Ready ==> final(self).i2c.ops() == old(self).i2c.ops().push(
                status_read_op::<B::BusError>(PN532_I2C_READY),
            ),
            r is Pending ==> (exists|b: u8|
                b != PN532_I2C_READY && final(self).i2c.ops() == old(self).i2c.ops().push(
                    status_read_op::<B::BusError>(b),
                )),
            r matches Readiness::Failed(e) ==> final(self).i2c.ops() == old(self).i2c.ops().push(
                (BusOp::Failed { err: e }),
            ),
    {
        match poll_status(&mut self.i2c) {
            Err(e) => Readiness::Failed(e),
            Ok(b) => {
                if is_ready_status(b) {
                    Readiness::Ready
                } else {
                    Readiness::Pending
                }
            },
        }
    }

    /// Fetch one response frame into `buf`: a single atomic transaction of
    /// `buf.len() + 1` bytes; the leading framing byte is discarded and the
    /// trailing bytes fill `buf`. A bus error is handed back unchanged and
    /// leaves `buf` as it was.
    pub fn read(&mut self, buf: &mut Vec<u8>) -> (r: Result<(), B::BusError>)
        requires
            old(buf)@.len() < usize::MAX,
        ensures
            final(buf)@.len() == old(buf)@.len(),
            r is Ok ==> payload_read(old(self).i2c.ops(), final(self).i2c.ops(), final(buf)@),
            r matches Err(e) ==> final(self).i2c.ops() == old(self).i2c.ops().push(
                (BusOp::Failed { err: e }),
            ) && final(buf)@ == old(buf)@,
    {
        read_frame(&mut self.i2c, buf)
    }
}

/// Interrupt-line transport: write and read as in [`I2CInterface`], but
/// readiness is decided by sampling a dedicated active-low input line, with
/// no bus traffic and no error channel.
pub struct I2CInterfaceWithIrq<B: I2cBus, P: IrqPin> {
    /// The exclusively owned bus handle.
    pub i2c: B,
    /// The exclusively owned interrupt line, active-low.
    pub irq: P,
}

impl<B: I2cBus, P: IrqPin> I2CInterfaceWithIrq<B, P> {
    /// Send one command frame, unmodified, to the device address.
    ///
    /// A bus error is handed back unchanged.
    pub fn write(&mut self, frame: &[u8]) -> (r: Result<(), B::BusError>)
        ensures
            final(self).irq == old(self).irq,
            r is Ok ==> final(self).i2c.ops() == old(self).i2c.ops().push(
                (BusOp::Write { addr: I2C_ADDRESS, data: frame@ }),
            ),
            r matches Err(e) ==> final(self).i2c.ops() == old(self).i2c.ops().push(
                (BusOp::Failed { err: e }),
            ),
    {
        write_frame(&mut self.i2c, frame)
    }

    /// One non-blocking readiness poll: samples the line once and reports
    /// `Ready` exactly when it is logic-low, `Pending` otherwise. Sampling
    /// cannot fail and touches no bus traffic.
    pub fn wait_ready(&mut self) -> (r: Readiness<B::BusError>)
        ensures
            final(self).i2c == old(self).i2c,
            !(r is Failed),
            final(self).irq.samples() == old(self).irq.samples().push(r is Ready),
    {
        if self.irq.is_low() {
            Readiness::Ready
        } else {
            Readiness::Pending
        }
    }

    /// Fetch one response frame into `buf`: a single atomic transaction of
    /// `buf.len() + 1` bytes; the leading framing byte is discarded and the
    /// trailing bytes fill `buf`. A bus error is handed back unchanged and
    /// leaves `buf` as it was.
    pub fn read(&mut self, buf: &mut Vec<u8>) -> (r: Result<(), B::BusError>)
        requires
            old(buf)@.len() < usize::MAX,
        ensures
            final(self).irq == old(self).irq,
            final(buf)@.len() == old(buf)@.len(),
            r is Ok ==> payload_read(old(self).i2c.ops(), final(self).i2c.ops(), final(buf)@),
            r matches Err(e) ==> final(self).i2c.ops() == old(self).i2c.ops().push(
                (BusOp::Failed { err: e }),
            ) && final(buf)@ == old(buf)@,
    {
        read_frame(&mut self.i2c, buf)
    }
}

/// Blocking-until-ready transport: write and read as in [`I2CInterface`],
/// but `wait_ready` absorbs the retry loop internally and exposes only a
/// terminal outcome. Its callers suspend at each bus-operation boundary; the
/// decisions taken between those boundaries are all here.
pub struct AsyncI2cInterface<B: I2cBus> {
    /// The exclusively owned bus handle.
    pub i2c: B,
}

impl<B: I2cBus> AsyncI2cInterface<B> {
    /// Send one command frame, unmodified, to the device address.
    ///
    /// A bus error is handed back unchanged.
    pub fn write(&mut self, frame: &[u8]) -> (r: Result<(), B::BusError>)
        ensures
            r is Ok ==> final(self).i2c.ops() == old(self).i2c.ops().push(
                (BusOp::Write { addr: I2C_ADDRESS, data: frame@ }),
            ),
            r matches Err(e) ==> final(self).i2c.ops() == old(self).i2c.ops().push(
                (BusOp::Failed { err: e }),
            ),
    {
        write_frame(&mut self.i2c, frame)
    }

    /// Block until the device is ready: issue single-byte status reads, at
    /// least one, until one observes the ready sentinel or the bus fails.
    /// No delay is injected between reads. On success the last poll, and
    /// only the last, observed the sentinel; a bus error is handed back
    /// unchanged.
    #[verifier::loop_isolation(false)]
    pub fn wait_ready(&mut self) -> (r: Result<(), B::BusError>)
        ensures
            r is Ok ==> wait_ready_ok(old(self).i2c.ops(), final(self).i2c.ops()),
            r matches Err(e) ==> wait_ready_failed(old(self).i2c.ops(), final(self).i2c.ops(), e),
    {
        let ghost pre = self.i2c.ops();
        let ghost mut polls: Seq<u8> = Seq::empty();
        loop
            invariant
                self.i2c.ops() == pre + status_reads::<B::BusError>(polls),
                all_pending(polls),
            decreases self.i2c.reads_left(),
        {
            match poll_status(&mut self.i2c) {
                Err(e) => {
                    proof {
                        assert(self.i2c.ops() == (pre + status_reads::<B::BusError>(polls)).push(
                            (BusOp::Failed { err: e }),
                        ));
                    }
                    return Err(e);
                },
                Ok(b) => {
                    proof {
                        assert(status_reads::<B::BusError>(polls.push(b)) =~= status_reads::<
                            B::BusError,
                        >(polls).push(status_read_op::<B::BusError>(b)));
                        assert(self.i2c.ops() =~= pre + status_reads::<B::BusError>(polls.push(b)));
                    }
                    if is_ready_status(b) {
                        proof {
                            let w = polls.push(b);
                            assert(w.drop_last() =~= polls);
                            assert(w.last() == PN532_I2C_READY);
                        }
                        return Ok(());
                    }
                    proof {
                        polls = polls.push(b);
                    }
                },
            }
        }
    }

    /// Fetch one response frame into `buf`: a single atomic transaction of
    /// `buf.len() + 1` bytes; the leading framing byte is discarded and the
    /// trailing bytes fill `buf`. A bus error is handed back unchanged and
    /// leaves `buf` as it was.
    pub fn read(&mut self, buf: &mut Vec<u8>) -> (r: Result<(), B::BusError>)
        requires
            old(buf)@.len() < usize::MAX,
        ensures
            final(buf)@.len() == old(buf)@.len(),
            r is Ok ==> payload_read(old(self).i2c.ops(), final(self).i2c.ops(), final(buf)@),
            r matches Err(e) ==> final(self).i2c.ops() == old(self).i2c.ops().push(
                (BusOp::Failed { err: e }),
            ) && final(buf)@ == old(buf)@,
    {
        read_frame(&mut self.i2c, buf)
    }
}

/// Law: a successful payload read issues exactly one more bus primitive, an
/// atomic read transaction at the device address of one byte more than the
/// payload it returned, and the payload is exactly that transaction with its
/// first byte discarded.
pub proof fn lemma_payload_read_shape<E>(pre: Seq<BusOp<E>>, post: Seq<BusOp<E>>, payload: Seq<u8>)
    requires
        payload_read(pre, post, payload),
    ensures
        post.len() == pre.len() + 1,
        (post.last() matches BusOp::Read { addr, data } && addr == I2C_ADDRESS && data.len()
            == payload.len() + 1 && data.skip(1) == payload),
{
    let b = choose|b: u8| post == pre.push(payload_read_op::<E>(b, payload));
    assert(post.last() == payload_read_op::<E>(b, payload));
    assert(framed(b, payload).skip(1) =~= payload);
}

/// Law: a blocking wait that returns success has issued at least one status
/// poll; every primitive it appended is a single-byte read at the device
/// address; and the last one, and only the last, observed the ready
/// sentinel.
pub proof fn lemma_wait_ready_ok_shape<E>(pre: Seq<BusOp<E>>, post: Seq<BusOp<E>>)
    requires
        wait_ready_ok(pre, post),
    ensures
        post.len() > pre.len(),
        post.last() == status_read_op::<E>(PN532_I2C_READY),
        forall|i: int|
            pre.len() <= i < post.len() ==> (#[trigger] post[i] matches BusOp::Read {
                addr,
                data,
            } && addr == I2C_ADDRESS && data.len() == 1),
        forall|i: int|
            pre.len() <= i < post.len() - 1 ==> post[i] != status_read_op::<E>(PN532_I2C_READY),
{
    let polls = choose|polls: Seq<u8>|
        {
            &&& polls.len() >= 1
            &&& all_pending(polls.drop_last())
            &&& polls.last() == PN532_I2C_READY
            &&& post == pre + #[trigger] status_reads::<E>(polls)
        };
    assert(post.last() == status_reads::<E>(polls)[polls.len() - 1]);
    assert forall|i: int| pre.len() <= i < post.len() implies (#[trigger] post[i]
        matches BusOp::Read { addr, data } && addr == I2C_ADDRESS && data.len() == 1) by {
        assert(post[i] == status_read_op::<E>(polls[i - pre.len()]));
    }
    assert forall|i: int| pre.len() <= i < post.len() - 1 implies post[i] != status_read_op::<E>(
        PN532_I2C_READY,
    ) by {
        let k = i - pre.len();
        assert(post[i] == status_read_op::<E>(polls[k]));
        assert(polls[k] == polls.drop_last()[k]);
        assert(polls[k] != PN532_I2C_READY);
        assert(seq![polls[k]][0] == polls[k]);
        assert(seq![PN532_I2C_READY][0] == PN532_I2C_READY);
    }
}

} // verus!
