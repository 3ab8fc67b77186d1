//! Library-wide laws, stated and proved over the configuration model.

use vstd::prelude::*;

use crate::affine_wavefront::{
    AlignerModel, AlignerOp, BuilderConfig, HeuristicState, HeuristicStrategy, MemoryMode,
    apply_heuristic, build_model, decode_memory_mode, encode_memory_mode, heuristics_of,
    model_step, HEURISTIC_NONE,
};
use crate::cigar::{cigar_consistent, OP_MATCH};

verus! {

/// The state a handle is in after a sequence of operations.
pub open spec fn model_fold(m: AlignerModel, ops: Seq<AlignerOp>) -> AlignerModel
    decreases ops.len(),
{
    if ops.len() == 0 {
        m
    } else {
        model_fold(model_step(m, ops[0]), ops.drop_first())
    }
}

/// Memory-mode (and distance-metric) immutability: no sequence of
/// operations on a live handle — penalty updates, heuristic, scope,
/// span, or step-limit directives, or applied alignment results —
/// changes the memory mode or the distance metric bound at
/// construction.
pub proof fn lemma_memory_mode_immutable(m: AlignerModel, ops: Seq<AlignerOp>)
    ensures
        model_fold(m, ops).memory_mode == m.memory_mode,
        model_fold(m, ops).penalties.distance_metric == m.penalties.distance_metric,
    decreases ops.len(),
{
    if ops.len() > 0 {
        lemma_memory_mode_immutable(model_step(m, ops[0]), ops.drop_first());
    }
}

/// Memory-mode immutability, end to end: on a handle whose
/// construction bound any real memory tier — as every construction
/// path does — the mode read back after any sequence of operations is
/// the mode supplied at construction.
pub proof fn lemma_memory_mode_read_back(m0: AlignerModel, mode: MemoryMode, ops: Seq<AlignerOp>)
    requires
        mode != MemoryMode::Undefined,
        m0.memory_mode == encode_memory_mode(mode),
    ensures
        decode_memory_mode(model_fold(m0, ops).memory_mode) == mode,
{
    lemma_memory_mode_immutable(m0, ops);
}

/// Builder determinism, for the configuration facade: two handles
/// built from identical configurations and then driven by identical
/// operation sequences are in identical states — in particular they
/// hold identical scores and identical CIGARs.
pub proof fn lemma_builder_determinism(b1: BuilderConfig, b2: BuilderConfig, ops: Seq<AlignerOp>)
    requires
        b1 == b2,
    ensures
        model_fold(build_model(b1), ops) == model_fold(build_model(b2), ops),
        model_fold(build_model(b1), ops).score == model_fold(build_model(b2), ops).score,
        model_fold(build_model(b1), ops).cigar == model_fold(build_model(b2), ops).cigar,
{
}

/// Heuristic round-trip: setting a single strategy on a handle with no
/// active heuristic and reading the active set back yields exactly
/// that strategy, with its parameters.
pub proof fn lemma_heuristic_round_trip(hs: HeuristicState, h: HeuristicStrategy)
    requires
        hs.strategy == HEURISTIC_NONE,
        h != HeuristicStrategy::NoHeuristic,
    ensures
        heuristics_of(apply_heuristic(hs, h)) == seq![h],
{
    assert({
        &&& (0u32 | 0x1u32) == 0x1u32
        &&& (0u32 | 0x2u32) == 0x2u32
        &&& (0u32 | 0x4u32) == 0x4u32
        &&& (0u32 | 0x8u32) == 0x8u32
        &&& (0u32 | 0x10u32) == 0x10u32
        &&& (0u32 | 0x20u32) == 0x20u32
        &&& (0x1u32 & 0x1u32) > 0 && (0x1u32 & 0x2u32) == 0 && (0x1u32 & 0x4u32) == 0 && (0x1u32
            & 0x8u32) == 0 && (0x1u32 & 0x10u32) == 0 && (0x1u32 & 0x20u32) == 0
        &&& (0x2u32 & 0x1u32) == 0 && (0x2u32 & 0x2u32) > 0 && (0x2u32 & 0x4u32) == 0 && (0x2u32
            & 0x8u32) == 0 && (0x2u32 & 0x10u32) == 0 && (0x2u32 & 0x20u32) == 0
        &&& (0x4u32 & 0x1u32) == 0 && (0x4u32 & 0x2u32) == 0 && (0x4u32 & 0x4u32) > 0 && (0x4u32
            & 0x8u32) == 0 && (0x4u32 & 0x10u32) == 0 && (0x4u32 & 0x20u32) == 0
        &&& (0x8u32 & 0x1u32) == 0 && (0x8u32 & 0x2u32) == 0 && (0x8u32 & 0x4u32) == 0 && (0x8u32
            & 0x8u32) > 0 && (0x8u32 & 0x10u32) == 0 && (0x8u32 & 0x20u32) == 0
        &&& (0x10u32 & 0x1u32) == 0 && (0x10u32 & 0x2u32) == 0 && (0x10u32 & 0x4u32) == 0 && (
        0x10u32 & 0x8u32) == 0 && (0x10u32 & 0x10u32) > 0 && (0x10u32 & 0x20u32) == 0
        &&& (0x20u32 & 0x1u32) == 0 && (0x20u32 & 0x2u32) == 0 && (0x20u32 & 0x4u32) == 0 && (
        0x20u32 & 0x8u32) == 0 && (0x20u32 & 0x10u32) == 0 && (0x20u32 & 0x20u32) > 0
    }) by (bit_vector);
    assert(heuristics_of(apply_heuristic(hs, h)) =~= seq![h]);
}

/// The complement of the round-trip: with no active heuristic flag —
/// as every constructor leaves the handle, and as a `NoHeuristic`
/// directive leaves it — the active set reads back empty.
pub proof fn lemma_no_active_heuristics(hs: HeuristicState)
    requires
        hs.strategy == HEURISTIC_NONE,
    ensures
        heuristics_of(hs) == Seq::<HeuristicStrategy>::empty(),
{
    assert((0u32 & 0x1u32) == 0 && (0u32 & 0x2u32) == 0 && (0u32 & 0x4u32) == 0 && (0u32
        & 0x8u32) == 0 && (0u32 & 0x10u32) == 0 && (0u32 & 0x20u32) == 0) by (bit_vector);
    assert(heuristics_of(hs) =~= Seq::<HeuristicStrategy>::empty());
}

/// The CIGAR shape a self-alignment must produce — one match
/// operation per position — satisfies the consumption invariant for
/// both sequences at that length.
pub proof fn lemma_all_match_cigar_consistent(n: nat)
    ensures
        cigar_consistent(Seq::new(n, |i: int| OP_MATCH), n, n),
    decreases n,
{
    if n > 0 {
        lemma_all_match_cigar_consistent((n - 1) as nat);
        assert(Seq::new(n, |i: int| OP_MATCH).drop_last() =~= Seq::new(
            (n - 1) as nat,
            |i: int| OP_MATCH,
        ));
    }
}

/// The decoder's half of the consumption invariant: applying an
/// alignment result whose CIGAR window satisfies the invariant for
/// the aligned lengths leaves the handle holding a CIGAR that
/// satisfies it too — the decode neither adds, drops, nor rewrites
/// operations.
pub proof fn lemma_result_decode_preserves_consistency(
    m: AlignerModel,
    status_code: i32,
    score: i32,
    operations: Seq<u8>,
    begin_offset: int,
    end_offset: int,
    query_len: nat,
    reference_len: nat,
)
    requires
        0 <= begin_offset <= end_offset <= operations.len(),
        cigar_consistent(operations.subrange(begin_offset, end_offset), query_len, reference_len),
    ensures
        cigar_consistent(
            model_step(
                m,
                AlignerOp::ApplyResult { status_code, score, operations, begin_offset, end_offset },
            ).cigar,
            query_len,
            reference_len,
        ),
{
}

} // verus!
