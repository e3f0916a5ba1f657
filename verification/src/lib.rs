//! A minimal boundary module: a wrapping increment on 32-bit unsigned
//! integers, and a variant that hands the incremented value to a
//! host-supplied logging capability.

use vstd::prelude::*;

verus! {

/// The successor of `x` in unsigned 32-bit arithmetic: `x + 1`, wrapping to
/// `0` at the top of the range.
pub open spec fn wrapping_succ(x: u32) -> u32 {
    if x == u32::MAX {
        0
    } else {
        (x + 1) as u32
    }
}

/// Returns `x + 1` modulo `2^32`. Never fails: on `u32::MAX` the result
/// wraps to `0`. Pure: no side effect, and the result depends on `x` alone.
pub fn add_one(x: u32) -> (r: u32)
    ensures
        r == wrapping_succ(x),
        x < u32::MAX ==> r == x + 1,
        x == u32::MAX ==> r == 0,
{
    x.wrapping_add(1)
}

/// Wrapping increment as modular arithmetic: `wrapping_succ(x)` is
/// `(x + 1) mod 2^32` for every `x`.
pub proof fn lemma_wrapping_succ_is_mod(x: u32)
    ensures
        wrapping_succ(x) == (x + 1) % 0x1_0000_0000,
{
}

/// Determinism of `add_one`: any two results obtained for the same input are
/// equal, since the contract of `add_one` pins each result to
/// `wrapping_succ` of that input.
pub proof fn lemma_add_one_deterministic(x: u32, r1: u32, r2: u32)
    requires
        r1 == wrapping_succ(x),
        r2 == wrapping_succ(x),
    ensures
        r1 == r2,
{
}

/// A logging capability supplied by the host environment. The module depends
/// on it as an injected dependency and never owns a concrete implementation:
/// one value in, nothing back. `history` is the abstract record of every
/// value handed to the capability, oldest first.
pub trait Logger {
    /// The values the capability has received so far, oldest first.
    spec fn history(&self) -> Seq<u32>;

    /// Hand one value to the capability. It must receive exactly this value,
    /// exactly once.
    fn log(&mut self, value: u32)
        ensures
            final(self).history() == old(self).history().push(value),
    ;
}

/// Computes `x + 1` modulo `2^32` and hands the result to the logging
/// capability, exactly once; returns no value. The capability's history
/// grows by exactly that one entry.
pub fn add_one_and_log<L: Logger>(logger: &mut L, x: u32)
    ensures
        final(logger).history() == old(logger).history().push(wrapping_succ(x)),
{
    let v = add_one(x);
    logger.log(v);
}

/// A logging capability that keeps every value it receives in memory,
/// oldest first.
pub struct VecLogger {
    entries: Vec<u32>,
}

impl VecLogger {
    /// A logger that has received nothing yet.
    pub fn new() -> (r: VecLogger)
        ensures
            r.history() == Seq::<u32>::empty(),
    {
        VecLogger { entries: Vec::new() }
    }

    /// The values received so far, oldest first.
    pub fn entries(&self) -> (r: &Vec<u32>)
        ensures
            r@ == self.history(),
    {
        &self.entries
    }
}

impl Logger for VecLogger {
    closed spec fn history(&self) -> Seq<u32> {
        self.entries@
    }

    fn log(&mut self, value: u32) {
        self.entries.push(value);
    }
}

} // verus!
