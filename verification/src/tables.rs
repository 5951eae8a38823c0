//! Construction of the encrypted constant tables: one of index constants,
//! one of recurrence-value constants, each entry encrypted independently and
//! collected in index order.

use vstd::prelude::*;

verus! {

use crate::fhe::EncryptedValue;
use crate::fhe::FheSession;
use crate::recurrence::build_fibonacci_table_plain;
use crate::recurrence::fib16;

/// Every entry of the table belongs to the key generation.
pub open spec fn table_under_key(table: Seq<EncryptedValue>, key: int) -> bool {
    forall|i: int| 0 <= i < table.len() ==> (#[trigger] table[i]).key_id() == key
}

/// An index table is well formed for a key generation when entry `i`
/// decrypts to `i`.
pub open spec fn index_table_wf(table: Seq<EncryptedValue>, key: int) -> bool {
    forall|i: int|
        0 <= i < table.len() ==> (#[trigger] table[i]).plain() == i && table[i].key_id() == key
}

/// A Fibonacci table is well formed for a key generation when entry `i`
/// decrypts to the recurrence at `i`.
pub open spec fn fib_table_wf(table: Seq<EncryptedValue>, key: int) -> bool {
    forall|i: int|
        0 <= i < table.len() ==> (#[trigger] table[i]).plain() == fib16(i as nat)
            && table[i].key_id() == key
}

/// Encrypts each index `0..=bound` independently (in parallel); the result
/// preserves index order, so entry `i` decrypts to `i`.
pub fn build_encrypted_indices(session: &FheSession, bound: u16) -> (r: Vec<EncryptedValue>)
    ensures
        r@.len() == bound + 1,
        index_table_wf(r@, session.key_id()),
{
    let count: usize = bound as usize + 1;
    let mut plain: Vec<u16> = Vec::new();
    let mut k: usize = 0;
    while k < count
        invariant
            k <= count,
            count == bound + 1,
            plain@.len() == k,
            forall|j: int| 0 <= j < k ==> #[trigger] plain@[j] == j,
        decreases count - k,
    {
        plain.push(k as u16);
        k = k + 1;
    }
    session.encrypt_all(&plain)
}

/// Computes the plaintext sequence up to `bound`, then encrypts each entry
/// independently (in parallel); entry `i` decrypts to the recurrence at `i`.
pub fn build_encrypted_fibs(session: &FheSession, bound: u16) -> (r: Vec<EncryptedValue>)
    ensures
        r@.len() == bound + 1,
        fib_table_wf(r@, session.key_id()),
{
    let plain = build_fibonacci_table_plain(bound);
    session.encrypt_all(&plain)
}

} // verus!
