//! Oblivious evaluation of the Fibonacci recurrence over an encrypted index.
//!
//! The index and every intermediate value stay encrypted; both evaluation
//! strategies perform the same operations in the same order for every
//! possible index, so nothing about the secret leaks through control flow
//! or memory access.

use vstd::prelude::*;

pub mod evaluate;
pub mod fhe;
pub mod input;
pub mod recurrence;
pub mod tables;

verus! {

/// Largest supported index: `F(25) = 75025` exceeds `u16::MAX`, so every
/// Fibonacci value up to this index fits the 16-bit encrypted domain.
pub const MAX_FIBONACCI_INDEX: u16 = 24;

} // verus!
