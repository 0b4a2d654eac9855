//! Abstract model of the shared bus and of the interrupt line.
//!
//! A bus is anything that can issue write and read primitives to a device
//! address; what it has done so far is recorded in a history of [`BusOp`]
//! values, oldest first. The transports in [`crate::i2c`] state their
//! contracts entirely over this history: what a call appends to it says
//! exactly which bytes crossed the bus and which error, if any, the caller
//! was handed.

use vstd::prelude::*;

verus! {

/// One completed bus primitive, as recorded in a bus's history.
pub enum BusOp<E> {
    /// A write the bus accepted: `data` went to the device at `addr`.
    Write { addr: u8, data: Seq<u8> },
    /// One atomic read transaction from the device at `addr`; `data` holds
    /// every byte the device supplied, in bus order.
    Read { addr: u8, data: Seq<u8> },
    /// A primitive that failed; `err` is the error handed to the caller.
    Failed { err: E },
}

/// A transactional bus primitive. Implementations decide what the device
/// answers and when a primitive fails; the contract only pins down how each
/// call extends the history and how the returned value relates to it.
pub trait I2cBus: Sized {
    /// Error surfaced by a failed primitive.
    type BusError;

    /// The history of primitives this bus has completed, oldest first.
    spec fn ops(&self) -> Seq<BusOp<Self::BusError>>;

    /// An upper bound on how many more read transactions this bus can still
    /// answer. Every answered read strictly decreases it, so a loop that
    /// re-reads until the device answers differently is provably finite: a
    /// bus models one device session with a finite stock of answers, and
    /// once the stock is gone every further read fails.
    spec fn reads_left(&self) -> nat;

    /// Issue one bus write of `data` to the device at `addr`.
    fn write_bytes(&mut self, addr: u8, data: &[u8]) -> (r: Result<(), Self::BusError>)
        ensures
            r is Ok ==> final(self).ops() == old(self).ops().push(
                (BusOp::Write { addr, data: data@ }),
            ),
            r matches Err(e) ==> final(self).ops() == old(self).ops().push(
                (BusOp::Failed { err: e }),
            ),
    ;

    /// Issue one atomic read transaction of exactly `n` bytes from `addr`.
    fn read_bytes(&mut self, addr: u8, n: usize) -> (r: Result<Vec<u8>, Self::BusError>)
        ensures
            r matches Ok(bytes) ==> bytes@.len() == n && final(self).reads_left() < old(
                self,
            ).reads_left() && final(self).ops() == old(self).ops().push(
                (BusOp::Read { addr, data: bytes@ }),
            ),
            r matches Err(e) ==> final(self).ops() == old(self).ops().push(
                (BusOp::Failed { err: e }),
            ),
    ;
}

/// A digital input line sampled on demand. Sampling cannot fail: the trait
/// has no error channel at all, so a theoretical pin failure can never be
/// mistaken for a "not ready" answer.
pub trait IrqPin: Sized {
    /// The history of sampled levels, oldest first; `true` is logic-low.
    spec fn samples(&self) -> Seq<bool>;

    /// Sample the line once; returns `true` when the line is logic-low.
    fn is_low(&mut self) -> (r: bool)
        ensures
            final(self).samples() == old(self).samples().push(r),
    ;
}

} // verus!
