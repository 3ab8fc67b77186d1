//! CIGAR operation alphabet and consumption accounting.
//!
//! A CIGAR is a byte sequence over the alphabet `M`, `=`, `X`, `I`,
//! `D`. Match and mismatch operations consume one position of both
//! sequences; an insertion consumes only the query; a deletion consumes
//! only the reference. A CIGAR is consistent with a query/reference
//! pair exactly when its operations consume each sequence's full
//! length.

use vstd::prelude::*;

verus! {

/// The CIGAR operation bytes: `M` (match), `=` (exact match), `X`
/// (mismatch), `I` (insertion), `D` (deletion).
pub const OP_MATCH: u8 = 77;

pub const OP_SEQ_MATCH: u8 = 61;

pub const OP_MISMATCH: u8 = 88;

pub const OP_INSERTION: u8 = 73;

pub const OP_DELETION: u8 = 68;

/// Whether a byte is one of the five CIGAR operations.
pub open spec fn is_cigar_op(op: u8) -> bool {
    op == OP_MATCH || op == OP_SEQ_MATCH || op == OP_MISMATCH || op == OP_INSERTION || op == OP_DELETION
}

/// Whether an operation consumes one query position.
pub open spec fn consumes_query(op: u8) -> bool {
    op == OP_MATCH || op == OP_SEQ_MATCH || op == OP_MISMATCH || op == OP_INSERTION
}

/// Whether an operation consumes one reference position.
pub open spec fn consumes_reference(op: u8) -> bool {
    op == OP_MATCH || op == OP_SEQ_MATCH || op == OP_MISMATCH || op == OP_DELETION
}

/// Whether every byte of a CIGAR is a valid operation.
pub open spec fn cigar_wf(ops: Seq<u8>) -> bool {
    forall|i: int| 0 <= i < ops.len() ==> is_cigar_op(#[trigger] ops[i])
}

/// How many query positions a CIGAR consumes.
pub open spec fn query_consumed(ops: Seq<u8>) -> nat
    decreases ops.len(),
{
    if ops.len() == 0 {
        0
    } else {
        query_consumed(ops.drop_last()) + (if consumes_query(ops.last()) {
            1nat
        } else {
            0nat
        })
    }
}

/// How many reference positions a CIGAR consumes.
pub open spec fn reference_consumed(ops: Seq<u8>) -> nat
    decreases ops.len(),
{
    if ops.len() == 0 {
        0
    } else {
        reference_consumed(ops.drop_last()) + (if consumes_reference(ops.last()) {
            1nat
        } else {
            0nat
        })
    }
}

/// The consumption invariant: the CIGAR is made of valid operations
/// and consumes exactly the query's and the reference's lengths.
pub open spec fn cigar_consistent(ops: Seq<u8>, query_len: nat, reference_len: nat) -> bool {
    cigar_wf(ops) && query_consumed(ops) == query_len && reference_consumed(ops) == reference_len
}

/// Counts how many positions of the query and of the reference a CIGAR
/// consumes; `None` exactly when some byte is not a CIGAR operation.
pub fn cigar_consumed_lengths(cigar: &[u8]) -> (counts: Option<(usize, usize)>)
    ensures
        match counts {
            Option::Some(c) => cigar_wf(cigar@) && c.0 == query_consumed(cigar@) && c.1
                == reference_consumed(cigar@),
            Option::None => !cigar_wf(cigar@),
        },
{
    let mut query_count: usize = 0;
    let mut reference_count: usize = 0;
    let mut i: usize = 0;
    let n = cigar.len();
    while i < n
        invariant
            i <= n,
            n == cigar@.len(),
            query_count <= i,
            reference_count <= i,
            cigar_wf(cigar@.subrange(0, i as int)),
            query_count == query_consumed(cigar@.subrange(0, i as int)),
            reference_count == reference_consumed(cigar@.subrange(0, i as int)),
        decreases n - i,
    {
        let op = cigar[i];
        if !(op == OP_MATCH || op == OP_SEQ_MATCH || op == OP_MISMATCH || op == OP_INSERTION || op == OP_DELETION) {
            return Option::None;
        }
        if op == OP_MATCH || op == OP_SEQ_MATCH || op == OP_MISMATCH || op == OP_INSERTION {
            query_count = query_count + 1;
        }
        if op == OP_MATCH || op == OP_SEQ_MATCH || op == OP_MISMATCH || op == OP_DELETION {
            reference_count = reference_count + 1;
        }
        proof {
            assert(cigar@.subrange(0, i + 1).drop_last() =~= cigar@.subrange(0, i as int));
            assert(cigar@.subrange(0, i + 1).last() == cigar@[i as int]);
        }
        i = i + 1;
    }
    proof {
        assert(cigar@.subrange(0, n as int) =~= cigar@);
    }
    Option::Some((query_count, reference_count))
}

/// Whether a CIGAR satisfies the consumption invariant against the
/// given query and reference lengths.
pub fn cigar_matches_lengths(cigar: &[u8], query_len: usize, reference_len: usize) -> (consistent:
    bool)
    ensures
        consistent == cigar_consistent(cigar@, query_len as nat, reference_len as nat),
{
    match cigar_consumed_lengths(cigar) {
        Option::Some(counts) => counts.0 == query_len && counts.1 == reference_len,
        Option::None => false,
    }
}

} // verus!
