//! Plaintext reference evaluation of the recurrence, in the same fixed-width
//! wraparound arithmetic as the encrypted domain.

use vstd::prelude::*;

verus! {

/// The Fibonacci recurrence in the 16-bit wraparound arithmetic of the
/// encrypted domain.
pub open spec fn fib16(n: nat) -> u16
    decreases n,
{
    if n == 0 {
        0u16
    } else if n == 1 {
        1u16
    } else {
        ((fib16((n - 1) as nat) + fib16((n - 2) as nat)) % 0x10000) as u16
    }
}

/// The Fibonacci recurrence over the unbounded naturals.
pub open spec fn fib(n: nat) -> nat
    decreases n,
{
    if n == 0 {
        0
    } else if n == 1 {
        1
    } else {
        fib((n - 1) as nat) + fib((n - 2) as nat)
    }
}

/// Up to the largest supported index the recurrence never wraps: the
/// fixed-width values agree with the unbounded ones, and the largest of them,
/// `F(24) = 46368`, fits the 16-bit domain. This is exactly why the index
/// range is capped.
pub proof fn lemma_fib16_no_wraparound(n: nat)
    requires
        n <= crate::MAX_FIBONACCI_INDEX,
    ensures
        fib16(n) == fib(n),
        fib(n) <= 46368,
    decreases n,
{
    lemma_fib_monotonic(n, 24nat);
    lemma_fib_at_bound();
    if n >= 2 {
        lemma_fib16_no_wraparound((n - 1) as nat);
        lemma_fib16_no_wraparound((n - 2) as nat);
        lemma_fib_monotonic((n - 1) as nat, 24nat);
        lemma_fib_monotonic((n - 2) as nat, 24nat);
    }
}

/// The value of the recurrence at the largest supported index.
proof fn lemma_fib_at_bound()
    ensures
        fib(24nat) == 46368,
{
    assert(fib(0nat) == 0);
    assert(fib(1nat) == 1);
    assert(fib(2nat) == 1);
    assert(fib(3nat) == 2);
    assert(fib(4nat) == 3);
    assert(fib(5nat) == 5);
    assert(fib(6nat) == 8);
    assert(fib(7nat) == 13);
    assert(fib(8nat) == 21);
    assert(fib(9nat) == 34);
    assert(fib(10nat) == 55);
    assert(fib(11nat) == 89);
    assert(fib(12nat) == 144);
    assert(fib(13nat) == 233);
    assert(fib(14nat) == 377);
    assert(fib(15nat) == 610);
    assert(fib(16nat) == 987);
    assert(fib(17nat) == 1597);
    assert(fib(18nat) == 2584);
    assert(fib(19nat) == 4181);
    assert(fib(20nat) == 6765);
    assert(fib(21nat) == 10946);
    assert(fib(22nat) == 17711);
    assert(fib(23nat) == 28657);
    assert(fib(24nat) == 46368);
}

/// The recurrence over the naturals never decreases as the index grows.
proof fn lemma_fib_monotonic(i: nat, j: nat)
    requires
        i <= j,
    ensures
        fib(i) <= fib(j),
    decreases j,
{
    if i < j && j >= 2 {
        lemma_fib_monotonic(i, (j - 1) as nat);
    }
}

/// Single-point evaluation of the recurrence, the correctness oracle for the
/// encrypted strategies.
pub fn fibonacci_plaintext(n: u16) -> (r: u16)
    ensures
        r == fib16(n as nat),
{
    let mut a: u16 = 0;
    let mut b: u16 = 1;
    let mut i: u16 = 0;
    while i < n
        invariant
            i <= n,
            a == fib16(i as nat),
            b == fib16((i + 1) as nat),
        decreases n - i,
    {
        let next: u16 = a.wrapping_add(b);
        a = b;
        b = next;
        i = i + 1;
    }
    a
}

/// The whole plaintext sequence up to `bound`, entry by entry equal to the
/// single-point evaluation.
pub fn build_fibonacci_table_plain(bound: u16) -> (r: Vec<u16>)
    ensures
        r@.len() == bound + 1,
        forall|i: int| 0 <= i <= bound ==> #[trigger] r@[i] == fib16(i as nat),
{
    let mut fibs: Vec<u16> = Vec::new();
    let mut a: u16 = 0;
    let mut b: u16 = 1;
    fibs.push(a);
    let mut i: usize = 1;
    while i <= bound as usize
        invariant
            1 <= i <= bound + 1,
            fibs@.len() == i,
            a == fib16((i - 1) as nat),
            b == fib16(i as nat),
            forall|k: int| 0 <= k < i ==> #[trigger] fibs@[k] == fib16(k as nat),
        decreases bound + 1 - i,
    {
        fibs.push(b);
        let next: u16 = a.wrapping_add(b);
        a = b;
        b = next;
        i = i + 1;
    }
    fibs
}

} // verus!
