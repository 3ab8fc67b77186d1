use lib_wfa2::cigar::{cigar_consumed_lengths, cigar_matches_lengths};

#[test]
fn consumption_counts_are_exact() {
    // M, =, X consume one position of each sequence; I consumes only
    // the query; D consumes only the reference.
    assert_eq!(cigar_consumed_lengths(b"M=X"), Some((3, 3)));
    assert_eq!(cigar_consumed_lengths(b"I"), Some((1, 0)));
    assert_eq!(cigar_consumed_lengths(b"D"), Some((0, 1)));
    assert_eq!(cigar_consumed_lengths(b"MMXIMMD"), Some((6, 6)));
    assert_eq!(cigar_consumed_lengths(b""), Some((0, 0)));
}

#[test]
fn invalid_operation_is_rejected() {
    assert_eq!(cigar_consumed_lengths(b"MM?MM"), None);
    assert_eq!(cigar_consumed_lengths(b"S"), None);
    assert!(!cigar_matches_lengths(b"Mm", 2, 2));
}

#[test]
fn consumption_invariant_checker() {
    assert!(cigar_matches_lengths(b"MMMM", 4, 4));
    assert!(cigar_matches_lengths(b"MMIMM", 5, 4));
    assert!(cigar_matches_lengths(b"MMDMM", 4, 5));
    assert!(!cigar_matches_lengths(b"MMMM", 4, 3));
    assert!(!cigar_matches_lengths(b"MMMM", 3, 4));
}

#[test]
fn self_alignment_cigar_shape() {
    // A self-alignment's CIGAR is one match operation per position and
    // satisfies the consumption invariant at that length.
    let n = 1000;
    let all_match = vec![b'M'; n];
    assert!(cigar_matches_lengths(&all_match, n, n));
    assert_eq!(cigar_consumed_lengths(&all_match), Some((n, n)));
}
