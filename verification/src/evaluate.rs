//! The two oblivious evaluation strategies. Each maps an encrypted index to
//! an encrypted recurrence value through an unconditional sequence of
//! homomorphic operations: the operation count and the access pattern are
//! the same for every possible index.

use vstd::prelude::*;

verus! {

use crate::fhe::EncryptedValue;
use crate::fhe::FheSession;
use crate::recurrence::fib16;
use crate::recurrence::fibonacci_plaintext;
use crate::tables::build_encrypted_indices;
use crate::tables::build_encrypted_fibs;
use crate::tables::fib_table_wf;
use crate::tables::index_table_wf;
use crate::tables::table_under_key;

/// The plaintext that an oblivious evaluation of the encrypted index `c`
/// decrypts to: the recurrence at the index `c` holds.
pub open spec fn evaluation_of(c: EncryptedValue) -> u16 {
    fib16(c.plain() as nat)
}

/// Iterative homomorphic recurrence: advances an encrypted running pair
/// through every index up to the bound and multiplexes the running result by
/// encrypted equality tests, never branching on the secret index.
pub fn fibonacci_additions(session: &FheSession, n: &EncryptedValue) -> (r: EncryptedValue)
    requires
        n.key_id() == session.key_id(),
        n.plain() <= crate::MAX_FIBONACCI_INDEX,
    ensures
        r.plain() == evaluation_of(*n),
        r.key_id() == session.key_id(),
{
    let indices = build_encrypted_indices(session, crate::MAX_FIBONACCI_INDEX);

    // Seed with F(0) or F(1) depending on whether the index is 0; an index
    // of 1 is covered because the loop below never re-tests it.
    let n_is_0 = session.equals(n, &indices[0]);
    let mut a = indices[0].duplicate();
    let mut b = indices[1].duplicate();
    let mut result = session.select(&n_is_0, &a, &b);

    let mut i: u16 = 2;
    while i <= crate::MAX_FIBONACCI_INDEX
        invariant
            2 <= i <= crate::MAX_FIBONACCI_INDEX + 1,
            n.key_id() == session.key_id(),
            n.plain() <= crate::MAX_FIBONACCI_INDEX,
            indices@.len() == crate::MAX_FIBONACCI_INDEX + 1,
            index_table_wf(indices@, session.key_id()),
            a.key_id() == session.key_id(),
            b.key_id() == session.key_id(),
            result.key_id() == session.key_id(),
            a.plain() == fib16((i - 2) as nat),
            b.plain() == fib16((i - 1) as nat),
            result.plain() == (if n.plain() < i {
                fib16(n.plain() as nat)
            } else {
                fib16(1)
            }),
        decreases crate::MAX_FIBONACCI_INDEX + 1 - i,
    {
        let next = session.add(&a, &b);
        let n_is_i = session.equals(n, &indices[i as usize]);
        // Encrypted equality plus select multiplexes the running result
        // without data-dependent control flow.
        result = session.select(&n_is_i, &next, &result);
        a = b;
        b = next;
        i = i + 1;
    }

    result
}

/// Table lookup: one pass of encrypted equality tests and selects over
/// prebuilt tables, with no homomorphic addition on the query path. The
/// result is the value-table entry at the secret index, whatever values
/// that table holds; over a well-formed Fibonacci table that is the
/// recurrence at the index.
pub fn fibonacci_lookup_with_tables(
    session: &FheSession,
    n: &EncryptedValue,
    encrypted_indices: &Vec<EncryptedValue>,
    encrypted_fibs: &Vec<EncryptedValue>,
) -> (r: EncryptedValue)
    requires
        n.key_id() == session.key_id(),
        encrypted_indices@.len() == encrypted_fibs@.len(),
        encrypted_indices@.len() >= 1,
        index_table_wf(encrypted_indices@, session.key_id()),
        table_under_key(encrypted_fibs@, session.key_id()),
        n.plain() < encrypted_indices@.len(),
    ensures
        r.plain() == encrypted_fibs@[n.plain() as int].plain(),
        r.key_id() == session.key_id(),
        fib_table_wf(encrypted_fibs@, session.key_id()) ==> r.plain() == evaluation_of(*n),
{
    let mut result = encrypted_fibs[0].duplicate();
    let mut i: usize = 1;
    while i < encrypted_indices.len()
        invariant
            1 <= i <= encrypted_indices@.len(),
            n.key_id() == session.key_id(),
            n.plain() < encrypted_indices@.len(),
            encrypted_indices@.len() == encrypted_fibs@.len(),
            index_table_wf(encrypted_indices@, session.key_id()),
            table_under_key(encrypted_fibs@, session.key_id()),
            result.key_id() == session.key_id(),
            result.plain() == (if n.plain() < i {
                encrypted_fibs@[n.plain() as int].plain()
            } else {
                encrypted_fibs@[0].plain()
            }),
        decreases encrypted_indices@.len() - i,
    {
        let is_match = session.equals(n, &encrypted_indices[i]);
        result = session.select(&is_match, &encrypted_fibs[i], &result);
        i = i + 1;
    }
    result
}

/// The decrypted results of one query: one per strategy, plus the plaintext
/// reference value.
pub struct QueryOutcome {
    /// Decryption of the iterative homomorphic recurrence's result.
    pub additions: u16,
    /// Decryption of the table lookup's result.
    pub lookup: u16,
    /// The plaintext reference value.
    pub reference: u16,
}

/// Runs the whole pipeline for one plaintext index: encrypts it, builds the
/// tables, evaluates both strategies, decrypts both results, and computes
/// the plaintext reference. Both strategies decrypt to the reference value.
pub fn run_fibonacci_query(session: &FheSession, n: u16) -> (out: QueryOutcome)
    requires
        n <= crate::MAX_FIBONACCI_INDEX,
    ensures
        out.additions == fib16(n as nat),
        out.lookup == fib16(n as nat),
        out.reference == fib16(n as nat),
        out.additions == out.lookup,
        out.lookup == out.reference,
{
    let encrypted_n = session.encrypt(n);
    let encrypted_indices = build_encrypted_indices(session, crate::MAX_FIBONACCI_INDEX);
    let encrypted_fibs = build_encrypted_fibs(session, crate::MAX_FIBONACCI_INDEX);
    let result_additions = fibonacci_additions(session, &encrypted_n);
    let result_lookup = fibonacci_lookup_with_tables(
        session,
        &encrypted_n,
        &encrypted_indices,
        &encrypted_fibs,
    );
    let additions = session.decrypt(&result_additions);
    let lookup = session.decrypt(&result_lookup);
    let reference = fibonacci_plaintext(n);
    QueryOutcome { additions, lookup, reference }
}

/// Law: oblivious evaluation is deterministic. Two independently encrypted
/// copies of the same plaintext index evaluate to the same plaintext, which
/// is the reference value of the recurrence at that index: the outcome is a
/// function of the index alone, not of the ciphertext that carries it.
pub proof fn lemma_evaluation_deterministic(first: EncryptedValue, second: EncryptedValue, n: u16)
    requires
        first.plain() == n,
        second.plain() == n,
    ensures
        evaluation_of(first) == evaluation_of(second),
        evaluation_of(first) == fib16(n as nat),
{
}

} // verus!
