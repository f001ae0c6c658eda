//! The witness that interrupts are masked.

use vstd::prelude::*;

verus! {

/// Proof, by possession, that the code holding it runs with interrupt
/// delivery disabled. It grants nothing else: it is no lock, and holds no
/// data. Every function that touches state shared with an interrupt
/// handler asks for a reference to one.
pub struct CriticalSection {
    _private: (),
}

impl CriticalSection {
    /// Makes a token. The caller vouches that interrupts are masked, and
    /// stay so while the token lives: inside an interrupt handler, or
    /// between disabling interrupts and restoring them.
    pub fn new() -> (cs: Self) {
        CriticalSection { _private: () }
    }
}

} // verus!
