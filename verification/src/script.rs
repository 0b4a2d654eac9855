//! A scripted bus and a scripted pin.
//!
//! They play a device whose behaviour is given in advance: the bus consumes
//! one scripted step per primitive, the pin one scripted level per sample.
//! Both implement the traits of [`crate::bus`], so every transport of
//! [`crate::i2c`] can be driven against them and its contracts exercised on
//! concrete runs.

use vstd::prelude::*;

use crate::bus::{BusOp, I2cBus, IrqPin};

verus! {

/// Error surfaced by the scripted bus; `code` tells the outcomes apart.
#[derive(Clone, Copy, Debug, PartialEq, Eq, Structural)]
pub struct ScriptError {
    /// A scripted code, or one of the fixed codes of this module.
    pub code: u8,
}

/// Error code: the script had no step left for the primitive.
pub const ERR_SCRIPT_EXHAUSTED: u8 = 0xF0;

/// Error code: the primitive did not match the next scripted step.
pub const ERR_SCRIPT_MISMATCH: u8 = 0xF1;

/// What the scripted device does for the next bus primitive.
pub enum ScriptStep {
    /// Accept a write exactly when it is addressed to `addr` and carries
    /// exactly the bytes of `data`; any other primitive mismatches.
    ExpectWrite { addr: u8, data: Vec<u8> },
    /// Answer a read that is addressed to `addr` and asks for exactly
    /// `data.len()` bytes by supplying `data`; any other primitive
    /// mismatches.
    Reply { addr: u8, data: Vec<u8> },
    /// Fail the primitive with `ScriptError { code }`.
    Fail { code: u8 },
}

/// Byte-for-byte comparison of a borrowed slice and a vector.
#[verifier::loop_isolation(false)]
fn bytes_equal(a: &[u8], b: &Vec<u8>) -> (r: bool)
    ensures
        r == (a@ == b@),
{
    if a.len() != b.len() {
        return false;
    }
    let mut i: usize = 0;
    while i < a.len()
        invariant
            0 <= i <= a@.len(),
            forall|j: int| 0 <= j < i ==> a@[j] == b@[j],
        decreases a@.len() - i,
    {
        if a[i] != b[i] {
            return false;
        }
        i = i + 1;
    }
    proof {
        assert(a@ =~= b@);
    }
    true
}

/// A fresh vector holding the same bytes as `src`.
#[verifier::loop_isolation(false)]
fn copy_bytes(src: &Vec<u8>) -> (r: Vec<u8>)
    ensures
        r@ == src@,
{
    let mut out: Vec<u8> = Vec::new();
    let mut i: usize = 0;
    while i < src.len()
        invariant
            0 <= i <= src@.len(),
            out@ == src@.subrange(0, i as int),
        decreases src@.len() - i,
    {
        out.push(src[i]);
        i = i + 1;
    }
    proof {
        assert(out@ =~= src@);
    }
    out
}

/// A bus that plays `script` from the front, one step per primitive. Once
/// the script is used up, every further primitive fails with
/// [`ERR_SCRIPT_EXHAUSTED`].
pub struct ScriptedBus {
    script: Vec<ScriptStep>,
    cursor: usize,
    history: Ghost<Seq<BusOp<ScriptError>>>,
}

impl ScriptedBus {
    /// A bus with an empty history that will play `script` from the front.
    pub fn new(script: Vec<ScriptStep>) -> (r: ScriptedBus)
        ensures
            r.ops() == Seq::<BusOp<ScriptError>>::empty(),
            r.steps_left() == script@.len(),
    {
        ScriptedBus { script, cursor: 0, history: Ghost(Seq::empty()) }
    }

    /// How many scripted steps have not been consumed yet.
    pub closed spec fn steps_left(&self) -> int {
        if self.cursor <= self.script@.len() {
            self.script@.len() - self.cursor
        } else {
            0
        }
    }

    /// How many scripted steps have not been consumed yet.
    pub fn remaining(&self) -> (r: usize)
        ensures
            r == self.steps_left(),
    {
        if self.cursor >= self.script.len() {
            0
        } else {
            self.script.len() - self.cursor
        }
    }
}

impl I2cBus for ScriptedBus {
    type BusError = ScriptError;

    closed spec fn ops(&self) -> Seq<BusOp<ScriptError>> {
        self.history@
    }

    closed spec fn reads_left(&self) -> nat {
        if self.steps_left() >= 0 {
            self.steps_left() as nat
        } else {
            0
        }
    }

    fn write_bytes(&mut self, addr: u8, data: &[u8]) -> (r: Result<(), ScriptError>) {
        let outcome: Result<(), ScriptError>;
        if self.cursor >= self.script.len() {
            outcome = Err(ScriptError { code: ERR_SCRIPT_EXHAUSTED });
        } else {
            let i = self.cursor;
            self.cursor = i + 1;
            match &self.script[i] {
                ScriptStep::ExpectWrite { addr: want_addr, data: want } => {
                    if *want_addr == addr && bytes_equal(data, want) {
                        outcome = Ok(());
                    } else {
                        outcome = Err(ScriptError { code: ERR_SCRIPT_MISMATCH });
                    }
                },
                ScriptStep::Reply { .. } => {
                    outcome = Err(ScriptError { code: ERR_SCRIPT_MISMATCH });
                },
                ScriptStep::Fail { code } => {
                    outcome = Err(ScriptError { code: *code });
                },
            }
        }
        match &outcome {
            Ok(_) => {
                self.history = Ghost(self.history@.push(BusOp::Write { addr, data: data@ }));
            },
            Err(e) => {
                self.history = Ghost(self.history@.push(BusOp::Failed { err: *e }));
            },
        }
        outcome
    }

    fn read_bytes(&mut self, addr: u8, n: usize) -> (r: Result<Vec<u8>, ScriptError>) {
        let outcome: Result<Vec<u8>, ScriptError>;
        if self.cursor >= self.script.len() {
            outcome = Err(ScriptError { code: ERR_SCRIPT_EXHAUSTED });
        } else {
            let i = self.cursor;
            self.cursor = i + 1;
            match &self.script[i] {
                ScriptStep::Reply { addr: want_addr, data } => {
                    if *want_addr == addr && data.len() == n {
                        outcome = Ok(copy_bytes(data));
                    } else {
                        outcome = Err(ScriptError { code: ERR_SCRIPT_MISMATCH });
                    }
                },
                ScriptStep::ExpectWrite { .. } => {
                    outcome = Err(ScriptError { code: ERR_SCRIPT_MISMATCH });
                },
                ScriptStep::Fail { code } => {
                    outcome = Err(ScriptError { code: *code });
                },
            }
        }
        match &outcome {
            Ok(bytes) => {
                self.history = Ghost(self.history@.push(BusOp::Read { addr, data: bytes@ }));
            },
            Err(e) => {
                self.history = Ghost(self.history@.push(BusOp::Failed { err: *e }));
            },
        }
        outcome
    }
}

/// A pin that plays `levels` from the front, one level per sample; `true`
/// is logic-low. Once the script is used up, every further sample reads
/// logic-high, that is, not ready.
pub struct ScriptedPin {
    levels: Vec<bool>,
    cursor: usize,
    log: Ghost<Seq<bool>>,
}

impl ScriptedPin {
    /// A pin with an empty sample history that will play `levels`.
    pub fn new(levels: Vec<bool>) -> (r: ScriptedPin)
        ensures
            r.samples() == Seq::<bool>::empty(),
    {
        ScriptedPin { levels, cursor: 0, log: Ghost(Seq::empty()) }
    }
}

impl IrqPin for ScriptedPin {
    closed spec fn samples(&self) -> Seq<bool> {
        self.log@
    }

    fn is_low(&mut self) -> (r: bool) {
        let level: bool;
        if self.cursor < self.levels.len() {
            level = self.levels[self.cursor];
            self.cursor = self.cursor + 1;
        } else {
            level = false;
        }
        self.log = Ghost(self.log@.push(level));
        level
    }
}

} // verus!
