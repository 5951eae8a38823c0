use oblivious_fibonacci::recurrence::build_fibonacci_table_plain;
use oblivious_fibonacci::recurrence::fibonacci_plaintext;
use oblivious_fibonacci::MAX_FIBONACCI_INDEX;

#[test]
fn boundary_cases() {
    assert_eq!(fibonacci_plaintext(0), 0);
    assert_eq!(fibonacci_plaintext(1), 1);
    assert_eq!(fibonacci_plaintext(24), 46368);
}

#[test]
fn value_at_seven() {
    assert_eq!(fibonacci_plaintext(7), 13);
}

#[test]
fn full_sequence_exact_values() {
    let table = build_fibonacci_table_plain(MAX_FIBONACCI_INDEX);
    let expected: Vec<u16> = vec![
        0, 1, 1, 2, 3, 5, 8, 13, 21, 34, 55, 89, 144, 233, 377, 610, 987, 1597, 2584, 4181, 6765,
        10946, 17711, 28657, 46368,
    ];
    assert_eq!(table, expected);
}

#[test]
fn sequence_matches_point_evaluation() {
    let table = build_fibonacci_table_plain(MAX_FIBONACCI_INDEX);
    assert_eq!(table.len(), usize::from(MAX_FIBONACCI_INDEX) + 1);
    for i in 0..=MAX_FIBONACCI_INDEX {
        assert_eq!(table[usize::from(i)], fibonacci_plaintext(i));
    }
}

#[test]
fn sequence_with_zero_bound() {
    let table = build_fibonacci_table_plain(0);
    assert_eq!(table, vec![0]);
}

#[test]
fn sequence_wraps_beyond_the_supported_bound() {
    // F(25) = 75025 no longer fits 16 bits; the sequence and the point
    // evaluation agree on the wrapped value.
    let table = build_fibonacci_table_plain(25);
    assert_eq!(table[25], 75025u32 as u16);
    assert_eq!(fibonacci_plaintext(25), 75025u32 as u16);
}
