//! The alignment-configuration facade: penalty and distance-metric
//! modeling, memory-mode binding, heuristic strategy management, scope
//! and span directives, the builder, and the result decoder.
//!
//! The aligner state is modeled field by field after the native engine's
//! attribute, penalty, heuristic, form, and CIGAR structures, with the
//! same integer encodings, so that every read-back path (including the
//! `Undefined` sentinels for unrecognized codes) is the same decode the
//! engine-facing code performs.

use vstd::prelude::*;

verus! {

// ---------------------------------------------------------------------
// Native integer encodings.
//
// These mirror the engine's enumeration values: distance metrics,
// memory tiers, alignment scope and span, and the heuristic bit flags.
// ---------------------------------------------------------------------

pub const DISTANCE_METRIC_INDEL: u32 = 0;

pub const DISTANCE_METRIC_EDIT: u32 = 1;

pub const DISTANCE_METRIC_GAP_LINEAR: u32 = 2;

pub const DISTANCE_METRIC_GAP_AFFINE: u32 = 3;

pub const DISTANCE_METRIC_GAP_AFFINE_2P: u32 = 4;

pub const MEMORY_MODE_HIGH: u32 = 0;

pub const MEMORY_MODE_MED: u32 = 1;

pub const MEMORY_MODE_LOW: u32 = 2;

pub const MEMORY_MODE_ULTRALOW: u32 = 3;

pub const SCOPE_COMPUTE_SCORE: u32 = 0;

pub const SCOPE_COMPUTE_ALIGNMENT: u32 = 1;

pub const SPAN_END2END: u32 = 0;

pub const SPAN_ENDSFREE: u32 = 1;

pub const HEURISTIC_NONE: u32 = 0x0;

pub const HEURISTIC_BANDED_STATIC: u32 = 0x1;

pub const HEURISTIC_BANDED_ADAPTIVE: u32 = 0x2;

pub const HEURISTIC_WFADAPTIVE: u32 = 0x4;

pub const HEURISTIC_XDROP: u32 = 0x8;

pub const HEURISTIC_ZDROP: u32 = 0x10;

pub const HEURISTIC_WFMASH: u32 = 0x20;

// ---------------------------------------------------------------------
// Public tagged variants.
// ---------------------------------------------------------------------

#[derive(Debug, Clone, PartialEq, Eq, Structural)]
pub enum DistanceMetric {
    Indel,
    Edit,
    GapAffine,
    GapAffine2p,
}

#[derive(Debug, Clone, PartialEq, Eq, Structural)]
pub enum HeuristicStrategy {
    NoHeuristic,
    BandedStatic { band_min_k: i32, band_max_k: i32 },
    BandedAdaptive { band_min_k: i32, band_max_k: i32, score_steps: i32 },
    WFAdaptive { min_wavefront_length: i32, max_distance_threshold: i32, score_steps: i32 },
    XDrop { xdrop: i32, score_steps: i32 },
    ZDrop { zdrop: i32, score_steps: i32 },
    WFMash { min_wavefront_length: i32, max_distance_threshold: i32, score_steps: i32 },
}

#[derive(Debug, Clone, PartialEq, Eq, Structural)]
pub enum AlignmentScope {
    ComputeScore,
    Alignment,
    Undefined,
}

#[derive(Debug, Clone, PartialEq, Eq, Structural)]
pub enum AlignmentSpan {
    End2End,
    EndsFree {
        pattern_begin_free: i32,
        pattern_end_free: i32,
        text_begin_free: i32,
        text_end_free: i32,
    },
    Undefined,
}

#[derive(Debug, Clone, PartialEq, Eq, Structural)]
pub enum MemoryMode {
    High,
    Medium,
    Low,
    Ultralow,
    Undefined,
}

/// Outcome of one alignment invocation, decoded from the engine's
/// native integer status code.
#[derive(Debug, Clone, PartialEq, Eq, Structural)]
pub enum AlignmentStatus {
    Completed,
    Partial,
    MaxStepsReached,
    OOM,
    Unattainable,
    Undefined,
}

// ---------------------------------------------------------------------
// Mirrors of the engine's configuration structures.
// ---------------------------------------------------------------------

/// Mirror of the engine's penalty structure: the bound distance metric
/// together with every penalty field, whether or not the metric makes
/// it meaningful.
#[derive(Debug, Clone, Copy, PartialEq, Eq, Structural)]
pub struct Penalties {
    pub distance_metric: u32,
    pub match_: i32,
    pub mismatch: i32,
    pub gap_opening1: i32,
    pub gap_extension1: i32,
    pub gap_opening2: i32,
    pub gap_extension2: i32,
}

/// Mirror of the engine's heuristic structure: active strategies as a
/// bit-flag set over `HEURISTIC_*`, plus one shared slot per parameter.
#[derive(Debug, Clone, Copy, PartialEq, Eq, Structural)]
pub struct HeuristicState {
    pub strategy: u32,
    pub min_wavefront_length: i32,
    pub max_distance_threshold: i32,
    pub min_k: i32,
    pub max_k: i32,
    pub xdrop: i32,
    pub zdrop: i32,
    pub steps_between_cutoffs: i32,
}

/// Mirror of the engine's alignment-form structure: the span code and
/// the four free-end allowances.
#[derive(Debug, Clone, Copy, PartialEq, Eq, Structural)]
pub struct AlignmentForm {
    pub span: u32,
    pub pattern_begin_free: i32,
    pub pattern_end_free: i32,
    pub text_begin_free: i32,
    pub text_end_free: i32,
}

// ---------------------------------------------------------------------
// Read-back decoders for the native encodings.
// ---------------------------------------------------------------------

/// Scope read-back: unrecognized codes decode to the `Undefined`
/// sentinel, which can be observed but never set.
pub open spec fn decode_scope(val: u32) -> AlignmentScope {
    if val == SCOPE_COMPUTE_ALIGNMENT {
        AlignmentScope::Alignment
    } else if val == SCOPE_COMPUTE_SCORE {
        AlignmentScope::ComputeScore
    } else {
        AlignmentScope::Undefined
    }
}

impl AlignmentScope {
    pub fn from_scope(val: u32) -> (scope: Self)
        ensures
            scope == decode_scope(val),
    {
        if val == SCOPE_COMPUTE_ALIGNMENT {
            Self::Alignment
        } else if val == SCOPE_COMPUTE_SCORE {
            Self::ComputeScore
        } else {
            Self::Undefined
        }
    }
}

/// Span read-back: `EndsFree` carries the four allowances out of the
/// form; unrecognized span codes decode to `Undefined`.
pub open spec fn decode_span(form: AlignmentForm) -> AlignmentSpan {
    if form.span == SPAN_END2END {
        AlignmentSpan::End2End
    } else if form.span == SPAN_ENDSFREE {
        AlignmentSpan::EndsFree {
            pattern_begin_free: form.pattern_begin_free,
            pattern_end_free: form.pattern_end_free,
            text_begin_free: form.text_begin_free,
            text_end_free: form.text_end_free,
        }
    } else {
        AlignmentSpan::Undefined
    }
}

impl AlignmentSpan {
    pub fn from_form(form: AlignmentForm) -> (span: Self)
        ensures
            span == decode_span(form),
    {
        if form.span == SPAN_END2END {
            Self::End2End
        } else if form.span == SPAN_ENDSFREE {
            Self::EndsFree {
                pattern_begin_free: form.pattern_begin_free,
                pattern_end_free: form.pattern_end_free,
                text_begin_free: form.text_begin_free,
                text_end_free: form.text_end_free,
            }
        } else {
            Self::Undefined
        }
    }
}

/// Memory-mode read-back: unrecognized codes decode to `Undefined`.
pub open spec fn decode_memory_mode(val: u32) -> MemoryMode {
    if val == MEMORY_MODE_HIGH {
        MemoryMode::High
    } else if val == MEMORY_MODE_MED {
        MemoryMode::Medium
    } else if val == MEMORY_MODE_LOW {
        MemoryMode::Low
    } else if val == MEMORY_MODE_ULTRALOW {
        MemoryMode::Ultralow
    } else {
        MemoryMode::Undefined
    }
}

impl MemoryMode {
    pub fn from_value(val: u32) -> (mode: Self)
        ensures
            mode == decode_memory_mode(val),
    {
        if val == MEMORY_MODE_HIGH {
            Self::High
        } else if val == MEMORY_MODE_MED {
            Self::Medium
        } else if val == MEMORY_MODE_LOW {
            Self::Low
        } else if val == MEMORY_MODE_ULTRALOW {
            Self::Ultralow
        } else {
            Self::Undefined
        }
    }
}

/// The memory-mode code written at construction. Only defined for the
/// four real tiers; constructors refuse `Undefined`.
pub open spec fn encode_memory_mode(mode: MemoryMode) -> u32 {
    match mode {
        MemoryMode::High => MEMORY_MODE_HIGH,
        MemoryMode::Medium => MEMORY_MODE_MED,
        MemoryMode::Low => MEMORY_MODE_LOW,
        MemoryMode::Ultralow => MEMORY_MODE_ULTRALOW,
        MemoryMode::Undefined => arbitrary(),
    }
}

/// Distance-metric read-back. An unrecognized code (including the
/// reserved linear-gap encoding) falls back to `GapAffine`.
pub open spec fn decode_distance_metric(val: u32) -> DistanceMetric {
    if val == DISTANCE_METRIC_INDEL {
        DistanceMetric::Indel
    } else if val == DISTANCE_METRIC_EDIT {
        DistanceMetric::Edit
    } else if val == DISTANCE_METRIC_GAP_AFFINE {
        DistanceMetric::GapAffine
    } else if val == DISTANCE_METRIC_GAP_AFFINE_2P {
        DistanceMetric::GapAffine2p
    } else {
        DistanceMetric::GapAffine
    }
}

// ---------------------------------------------------------------------
// Status decoding.
// ---------------------------------------------------------------------

/// The exact native-status-code mapping: `0` is `Completed`, `1` is
/// `Partial`, `-100` is `MaxStepsReached`, `-200` is `OOM`, `-300` is
/// `Unattainable`, and every other code is the `Undefined` fallback.
pub open spec fn decode_status(value: i32) -> AlignmentStatus {
    if value == 0 {
        AlignmentStatus::Completed
    } else if value == 1 {
        AlignmentStatus::Partial
    } else if value == -100 {
        AlignmentStatus::MaxStepsReached
    } else if value == -200 {
        AlignmentStatus::OOM
    } else if value == -300 {
        AlignmentStatus::Unattainable
    } else {
        AlignmentStatus::Undefined
    }
}

impl From<i32> for AlignmentStatus {
    fn from(value: i32) -> (status: Self) {
        match value {
            0 => AlignmentStatus::Completed,
            1 => AlignmentStatus::Partial,
            -100 => AlignmentStatus::MaxStepsReached,
            -200 => AlignmentStatus::OOM,
            -300 => AlignmentStatus::Unattainable,
            _ => AlignmentStatus::Undefined,
        }
    }
}

impl vstd::std_specs::convert::FromSpecImpl<i32> for AlignmentStatus {
    open spec fn obeys_from_spec() -> bool {
        true
    }

    open spec fn from_spec(value: i32) -> Self {
        decode_status(value)
    }
}

// ---------------------------------------------------------------------
// Heuristic flag-set semantics.
// ---------------------------------------------------------------------

/// What one heuristic directive does to the engine's heuristic state:
/// `NoHeuristic` clears the whole flag set; every other variant adds
/// its flag and overwrites the parameter slots it uses, which are
/// shared between strategies.
pub open spec fn apply_heuristic(hs: HeuristicState, h: HeuristicStrategy) -> HeuristicState {
    match h {
        HeuristicStrategy::NoHeuristic => HeuristicState { strategy: HEURISTIC_NONE, ..hs },
        HeuristicStrategy::BandedStatic { band_min_k, band_max_k } => HeuristicState {
            strategy: hs.strategy | HEURISTIC_BANDED_STATIC,
            min_k: band_min_k,
            max_k: band_max_k,
            ..hs
        },
        HeuristicStrategy::BandedAdaptive { band_min_k, band_max_k, score_steps } => HeuristicState {
            strategy: hs.strategy | HEURISTIC_BANDED_ADAPTIVE,
            min_k: band_min_k,
            max_k: band_max_k,
            steps_between_cutoffs: score_steps,
            ..hs
        },
        HeuristicStrategy::WFAdaptive {
            min_wavefront_length,
            max_distance_threshold,
            score_steps,
        } => HeuristicState {
            strategy: hs.strategy | HEURISTIC_WFADAPTIVE,
            min_wavefront_length,
            max_distance_threshold,
            steps_between_cutoffs: score_steps,
            ..hs
        },
        HeuristicStrategy::XDrop { xdrop, score_steps } => HeuristicState {
            strategy: hs.strategy | HEURISTIC_XDROP,
            xdrop,
            steps_between_cutoffs: score_steps,
            ..hs
        },
        HeuristicStrategy::ZDrop { zdrop, score_steps } => HeuristicState {
            strategy: hs.strategy | HEURISTIC_ZDROP,
            zdrop,
            steps_between_cutoffs: score_steps,
            ..hs
        },
        HeuristicStrategy::WFMash {
            min_wavefront_length,
            max_distance_threshold,
            score_steps,
        } => HeuristicState {
            strategy: hs.strategy | HEURISTIC_WFMASH,
            min_wavefront_length,
            max_distance_threshold,
            steps_between_cutoffs: score_steps,
            ..hs
        },
    }
}

/// The active-strategy list reconstructed from the flag set, one entry
/// per set flag, in the fixed flag-testing order: ZDrop, XDrop,
/// BandedAdaptive, BandedStatic, WFAdaptive, WFMash. The order is an
/// artifact of that testing sequence, not a priority.
pub open spec fn heuristics_of(hs: HeuristicState) -> Seq<HeuristicStrategy> {
    (if hs.strategy & HEURISTIC_ZDROP > 0 {
        seq![HeuristicStrategy::ZDrop { zdrop: hs.zdrop, score_steps: hs.steps_between_cutoffs }]
    } else {
        Seq::empty()
    }) + (if hs.strategy & HEURISTIC_XDROP > 0 {
        seq![HeuristicStrategy::XDrop { xdrop: hs.xdrop, score_steps: hs.steps_between_cutoffs }]
    } else {
        Seq::empty()
    }) + (if hs.strategy & HEURISTIC_BANDED_ADAPTIVE > 0 {
        seq![
            HeuristicStrategy::BandedAdaptive {
                band_min_k: hs.min_k,
                band_max_k: hs.max_k,
                score_steps: hs.steps_between_cutoffs,
            },
        ]
    } else {
        Seq::empty()
    }) + (if hs.strategy & HEURISTIC_BANDED_STATIC > 0 {
        seq![HeuristicStrategy::BandedStatic { band_min_k: hs.min_k, band_max_k: hs.max_k }]
    } else {
        Seq::empty()
    }) + (if hs.strategy & HEURISTIC_WFADAPTIVE > 0 {
        seq![
            HeuristicStrategy::WFAdaptive {
                min_wavefront_length: hs.min_wavefront_length,
                max_distance_threshold: hs.max_distance_threshold,
                score_steps: hs.steps_between_cutoffs,
            },
        ]
    } else {
        Seq::empty()
    }) + (if hs.strategy & HEURISTIC_WFMASH > 0 {
        seq![
            HeuristicStrategy::WFMash {
                min_wavefront_length: hs.min_wavefront_length,
                max_distance_threshold: hs.max_distance_threshold,
                score_steps: hs.steps_between_cutoffs,
            },
        ]
    } else {
        Seq::empty()
    })
}

// ---------------------------------------------------------------------
// The aligner model.
// ---------------------------------------------------------------------

/// The mathematical state of one aligner handle: the construction-time
/// profile (penalties, distance metric, memory mode), the per-call
/// directives (heuristic, scope, form, step limit), and the most recent
/// alignment's result buffer (CIGAR and score).
#[verifier::ext_equal]
pub struct AlignerModel {
    pub penalties: Penalties,
    pub memory_mode: u32,
    pub heuristic: HeuristicState,
    pub alignment_scope: u32,
    pub alignment_form: AlignmentForm,
    pub max_alignment_steps: i32,
    pub cigar: Seq<u8>,
    pub score: i32,
}

/// One operation on a live handle. Every mutating method of
/// `AffineWavefronts` is one of these; there is none that changes the
/// memory mode or the distance metric.
pub enum AlignerOp {
    SetPenalties { match_: i32, mismatch: i32, gap_opening: i32, gap_extension: i32 },
    SetPenaltiesAffine2p {
        match_: i32,
        mismatch: i32,
        gap_opening1: i32,
        gap_extension1: i32,
        gap_opening2: i32,
        gap_extension2: i32,
    },
    SetHeuristic { heuristic: HeuristicStrategy },
    SetAlignmentScope { scope: AlignmentScope },
    SetAlignmentSpan { span: AlignmentSpan },
    SetMaxAlignmentSteps { steps: i32 },
    ApplyResult { status_code: i32, score: i32, operations: Seq<u8>, begin_offset: int, end_offset: int },
}

/// The transition each operation makes on the model. Directives that
/// are contract violations at the public surface (setting an
/// `Undefined` scope) or inert by design (setting an `Undefined` span)
/// leave the model unchanged here.
pub open spec fn model_step(m: AlignerModel, op: AlignerOp) -> AlignerModel {
    match op {
        AlignerOp::SetPenalties { match_, mismatch, gap_opening, gap_extension } => AlignerModel {
            penalties: Penalties {
                match_,
                mismatch,
                gap_opening1: gap_opening,
                gap_extension1: gap_extension,
                ..m.penalties
            },
            ..m
        },
        AlignerOp::SetPenaltiesAffine2p {
            match_,
            mismatch,
            gap_opening1,
            gap_extension1,
            gap_opening2,
            gap_extension2,
        } => AlignerModel {
            penalties: Penalties {
                match_,
                mismatch,
                gap_opening1,
                gap_extension1,
                gap_opening2,
                gap_extension2,
                ..m.penalties
            },
            ..m
        },
        AlignerOp::SetHeuristic { heuristic } => AlignerModel {
            heuristic: apply_heuristic(m.heuristic, heuristic),
            ..m
        },
        AlignerOp::SetAlignmentScope { scope } => match scope {
            AlignmentScope::ComputeScore => AlignerModel {
                alignment_scope: SCOPE_COMPUTE_SCORE,
                ..m
            },
            AlignmentScope::Alignment => AlignerModel {
                alignment_scope: SCOPE_COMPUTE_ALIGNMENT,
                ..m
            },
            AlignmentScope::Undefined => m,
        },
        AlignerOp::SetAlignmentSpan { span } => match span {
            AlignmentSpan::End2End => AlignerModel {
                alignment_form: AlignmentForm {
                    span: SPAN_END2END,
                    pattern_begin_free: 0,
                    pattern_end_free: 0,
                    text_begin_free: 0,
                    text_end_free: 0,
                },
                ..m
            },
            AlignmentSpan::EndsFree {
                pattern_begin_free,
                pattern_end_free,
                text_begin_free,
                text_end_free,
            } => AlignerModel {
                alignment_form: AlignmentForm {
                    span: SPAN_ENDSFREE,
                    pattern_begin_free,
                    pattern_end_free,
                    text_begin_free,
                    text_end_free,
                },
                ..m
            },
            AlignmentSpan::Undefined => m,
        },
        AlignerOp::SetMaxAlignmentSteps { steps } => AlignerModel {
            max_alignment_steps: steps,
            ..m
        },
        AlignerOp::ApplyResult { status_code, score, operations, begin_offset, end_offset } => AlignerModel {
            cigar: if 0 <= begin_offset <= end_offset <= operations.len() {
                operations.subrange(begin_offset, end_offset)
            } else {
                Seq::empty()
            },
            score,
            ..m
        },
    }
}

// ---------------------------------------------------------------------
// The aligner handle.
// ---------------------------------------------------------------------

/// One aligner handle: an immutable construction-time profile
/// (distance metric, penalties, memory mode), the per-call directives,
/// and the most recent result buffer. The handle is deliberately not
/// duplicable: an alignment engine instance has exactly one owner.
pub struct AffineWavefronts {
    penalties: Penalties,
    memory_mode: u32,
    heuristic: HeuristicState,
    alignment_scope: u32,
    alignment_form: AlignmentForm,
    max_alignment_steps: i32,
    cigar_operations: Vec<u8>,
    alignment_score: i32,
}

impl View for AffineWavefronts {
    type V = AlignerModel;

    closed spec fn view(&self) -> AlignerModel {
        AlignerModel {
            penalties: self.penalties,
            memory_mode: self.memory_mode,
            heuristic: self.heuristic,
            alignment_scope: self.alignment_scope,
            alignment_form: self.alignment_form,
            max_alignment_steps: self.max_alignment_steps,
            cigar: self.cigar_operations@,
            score: self.alignment_score,
        }
    }
}

/// The default-configuration template: gap-affine distance with
/// penalties 0/4/6/2 (and a second gap curve of 12/1), high memory
/// mode, the adaptive-wavefront heuristic with its stock parameters,
/// full-alignment scope, end-to-end span, and no effective step bound.
pub open spec fn default_model() -> AlignerModel {
    AlignerModel {
        penalties: Penalties {
            distance_metric: DISTANCE_METRIC_GAP_AFFINE,
            match_: 0,
            mismatch: 4,
            gap_opening1: 6,
            gap_extension1: 2,
            gap_opening2: 12,
            gap_extension2: 1,
        },
        memory_mode: MEMORY_MODE_HIGH,
        heuristic: HeuristicState {
            strategy: HEURISTIC_WFADAPTIVE,
            min_wavefront_length: 10,
            max_distance_threshold: 50,
            min_k: 0,
            max_k: 0,
            xdrop: 0,
            zdrop: 0,
            steps_between_cutoffs: 1,
        },
        alignment_scope: SCOPE_COMPUTE_ALIGNMENT,
        alignment_form: AlignmentForm {
            span: SPAN_END2END,
            pattern_begin_free: 0,
            pattern_end_free: 0,
            text_begin_free: 0,
            text_end_free: 0,
        },
        max_alignment_steps: i32::MAX,
        cigar: Seq::empty(),
        score: 0,
    }
}

/// The profile a gap-affine construction binds: the template with the
/// gap-affine metric, the four supplied penalties, the requested
/// memory mode, and every heuristic disabled.
pub open spec fn gap_affine_model(
    match_: i32,
    mismatch: i32,
    gap_opening: i32,
    gap_extension: i32,
    memory_mode: MemoryMode,
) -> AlignerModel {
    AlignerModel {
        penalties: Penalties {
            distance_metric: DISTANCE_METRIC_GAP_AFFINE,
            match_,
            mismatch,
            gap_opening1: gap_opening,
            gap_extension1: gap_extension,
            ..default_model().penalties
        },
        memory_mode: encode_memory_mode(memory_mode),
        heuristic: HeuristicState { strategy: HEURISTIC_NONE, ..default_model().heuristic },
        ..default_model()
    }
}

/// The profile a two-piece-affine construction binds: as above, with
/// the two-piece metric and all six penalties supplied.
pub open spec fn gap_affine_2p_model(
    match_: i32,
    mismatch: i32,
    gap_opening1: i32,
    gap_extension1: i32,
    gap_opening2: i32,
    gap_extension2: i32,
    memory_mode: MemoryMode,
) -> AlignerModel {
    AlignerModel {
        penalties: Penalties {
            distance_metric: DISTANCE_METRIC_GAP_AFFINE_2P,
            match_,
            mismatch,
            gap_opening1,
            gap_extension1,
            gap_opening2,
            gap_extension2,
        },
        memory_mode: encode_memory_mode(memory_mode),
        heuristic: HeuristicState { strategy: HEURISTIC_NONE, ..default_model().heuristic },
        ..default_model()
    }
}

impl Default for AffineWavefronts {
    /// A handle with the engine's default configuration template.
    fn default() -> (aligner: Self)
        ensures
            aligner@ == default_model(),
    {
        let aligner = AffineWavefronts {
            penalties: Penalties {
                distance_metric: DISTANCE_METRIC_GAP_AFFINE,
                match_: 0,
                mismatch: 4,
                gap_opening1: 6,
                gap_extension1: 2,
                gap_opening2: 12,
                gap_extension2: 1,
            },
            memory_mode: MEMORY_MODE_HIGH,
            heuristic: HeuristicState {
                strategy: HEURISTIC_WFADAPTIVE,
                min_wavefront_length: 10,
                max_distance_threshold: 50,
                min_k: 0,
                max_k: 0,
                xdrop: 0,
                zdrop: 0,
                steps_between_cutoffs: 1,
            },
            alignment_scope: SCOPE_COMPUTE_ALIGNMENT,
            alignment_form: AlignmentForm {
                span: SPAN_END2END,
                pattern_begin_free: 0,
                pattern_end_free: 0,
                text_begin_free: 0,
                text_end_free: 0,
            },
            max_alignment_steps: i32::MAX,
            cigar_operations: Vec::new(),
            alignment_score: 0,
        };
        proof {
            assert(aligner@ =~= default_model());
        }
        aligner
    }
}

/// The memory-mode code bound at construction; `Undefined` is a
/// construction-time contract violation and is refused by `requires`.
fn memory_mode_value(memory_mode: &MemoryMode) -> (val: u32)
    requires
        *memory_mode != MemoryMode::Undefined,
    ensures
        val == encode_memory_mode(*memory_mode),
{
    match memory_mode {
        MemoryMode::High => MEMORY_MODE_HIGH,
        MemoryMode::Medium => MEMORY_MODE_MED,
        MemoryMode::Low => MEMORY_MODE_LOW,
        MemoryMode::Ultralow => MEMORY_MODE_ULTRALOW,
        MemoryMode::Undefined => vstd::pervasive::unreached(),
    }
}

impl AffineWavefronts {
    /// Gap-affine construction with the default high memory mode.
    pub fn with_penalties(
        match_: i32,
        mismatch: i32,
        gap_opening: i32,
        gap_extension: i32,
    ) -> (aligner: Self)
        ensures
            aligner@ == gap_affine_model(
                match_,
                mismatch,
                gap_opening,
                gap_extension,
                MemoryMode::High,
            ),
    {
        Self::with_penalties_and_memory_mode(
            match_,
            mismatch,
            gap_opening,
            gap_extension,
            MemoryMode::High,
        )
    }

    /// Gap-affine construction: binds the metric, the four penalties,
    /// and the memory mode, and disables every heuristic.
    pub fn with_penalties_and_memory_mode(
        match_: i32,
        mismatch: i32,
        gap_opening: i32,
        gap_extension: i32,
        memory_mode: MemoryMode,
    ) -> (aligner: Self)
        requires
            memory_mode != MemoryMode::Undefined,
        ensures
            aligner@ == gap_affine_model(match_, mismatch, gap_opening, gap_extension, memory_mode),
    {
        let mut aligner = Self::default();
        aligner.penalties.distance_metric = DISTANCE_METRIC_GAP_AFFINE;
        aligner.penalties.match_ = match_;
        aligner.penalties.mismatch = mismatch;
        aligner.penalties.gap_opening1 = gap_opening;
        aligner.penalties.gap_extension1 = gap_extension;
        aligner.memory_mode = memory_mode_value(&memory_mode);
        aligner.heuristic.strategy = HEURISTIC_NONE;
        proof {
            assert(aligner@ =~= gap_affine_model(
                match_,
                mismatch,
                gap_opening,
                gap_extension,
                memory_mode,
            ));
        }
        aligner
    }

    /// Two-piece-affine construction with the default high memory mode.
    pub fn with_penalties_affine2p(
        match_: i32,
        mismatch: i32,
        gap_opening1: i32,
        gap_extension1: i32,
        gap_opening2: i32,
        gap_extension2: i32,
    ) -> (aligner: Self)
        ensures
            aligner@ == gap_affine_2p_model(
                match_,
                mismatch,
                gap_opening1,
                gap_extension1,
                gap_opening2,
                gap_extension2,
                MemoryMode::High,
            ),
    {
        Self::with_penalties_affine2p_and_memory_mode(
            match_,
            mismatch,
            gap_opening1,
            gap_extension1,
            gap_opening2,
            gap_extension2,
            MemoryMode::High,
        )
    }

    /// Two-piece-affine construction: binds the metric, all six
    /// penalties, and the memory mode, and disables every heuristic.
    pub fn with_penalties_affine2p_and_memory_mode(
        match_: i32,
        mismatch: i32,
        gap_opening1: i32,
        gap_extension1: i32,
        gap_opening2: i32,
        gap_extension2: i32,
        memory_mode: MemoryMode,
    ) -> (aligner: Self)
        requires
            memory_mode != MemoryMode::Undefined,
        ensures
            aligner@ == gap_affine_2p_model(
                match_,
                mismatch,
                gap_opening1,
                gap_extension1,
                gap_opening2,
                gap_extension2,
                memory_mode,
            ),
    {
        let mut aligner = Self::default();
        aligner.penalties.distance_metric = DISTANCE_METRIC_GAP_AFFINE_2P;
        aligner.penalties.match_ = match_;
        aligner.penalties.mismatch = mismatch;
        aligner.penalties.gap_opening1 = gap_opening1;
        aligner.penalties.gap_extension1 = gap_extension1;
        aligner.penalties.gap_opening2 = gap_opening2;
        aligner.penalties.gap_extension2 = gap_extension2;
        aligner.memory_mode = memory_mode_value(&memory_mode);
        aligner.heuristic.strategy = HEURISTIC_NONE;
        proof {
            assert(aligner@ =~= gap_affine_2p_model(
                match_,
                mismatch,
                gap_opening1,
                gap_extension1,
                gap_opening2,
                gap_extension2,
                memory_mode,
            ));
        }
        aligner
    }

    /// Convenience construction for low-memory bidirectional alignment
    /// of long sequences: two-piece-affine penalties 0/4/6/2/12/1 with
    /// the ultralow memory tier.
    pub fn new_ultralow() -> (aligner: Self)
        ensures
            aligner@ == gap_affine_2p_model(0, 4, 6, 2, 12, 1, MemoryMode::Ultralow),
    {
        Self::with_penalties_affine2p_and_memory_mode(0, 4, 6, 2, 12, 1, MemoryMode::Ultralow)
    }

    /// In-place update of the gap-affine penalty subset. The bound
    /// distance metric does not change, and on a two-piece-affine
    /// handle the second gap curve is left stale by design.
    pub fn set_penalties(
        &mut self,
        match_: i32,
        mismatch: i32,
        gap_opening: i32,
        gap_extension: i32,
    )
        ensures
            final(self)@ == model_step(
                old(self)@,
                AlignerOp::SetPenalties { match_, mismatch, gap_opening, gap_extension },
            ),
    {
        self.penalties.match_ = match_;
        self.penalties.mismatch = mismatch;
        self.penalties.gap_opening1 = gap_opening;
        self.penalties.gap_extension1 = gap_extension;
    }

    /// In-place update of all six penalty fields. The bound distance
    /// metric still does not change: on a gap-affine handle the second
    /// gap curve is written but not consulted.
    pub fn set_penalties_affine2p(
        &mut self,
        match_: i32,
        mismatch: i32,
        gap_opening1: i32,
        gap_extension1: i32,
        gap_opening2: i32,
        gap_extension2: i32,
    )
        ensures
            final(self)@ == model_step(
                old(self)@,
                AlignerOp::SetPenaltiesAffine2p {
                    match_,
                    mismatch,
                    gap_opening1,
                    gap_extension1,
                    gap_opening2,
                    gap_extension2,
                },
            ),
    {
        self.penalties.match_ = match_;
        self.penalties.mismatch = mismatch;
        self.penalties.gap_opening1 = gap_opening1;
        self.penalties.gap_extension1 = gap_extension1;
        self.penalties.gap_opening2 = gap_opening2;
        self.penalties.gap_extension2 = gap_extension2;
    }

    /// The distance metric bound at construction, decoded from its
    /// native code.
    pub fn get_distance_metric(&self) -> (metric: DistanceMetric)
        ensures
            metric == decode_distance_metric(self@.penalties.distance_metric),
    {
        let code = self.penalties.distance_metric;
        if code == DISTANCE_METRIC_INDEL {
            DistanceMetric::Indel
        } else if code == DISTANCE_METRIC_EDIT {
            DistanceMetric::Edit
        } else if code == DISTANCE_METRIC_GAP_AFFINE {
            DistanceMetric::GapAffine
        } else if code == DISTANCE_METRIC_GAP_AFFINE_2P {
            DistanceMetric::GapAffine2p
        } else {
            DistanceMetric::GapAffine
        }
    }

    /// Activates the given strategy's flag and parameters;
    /// `NoHeuristic` clears every active heuristic.
    pub fn set_heuristic(&mut self, heuristic: &HeuristicStrategy)
        ensures
            final(self)@ == model_step(
                old(self)@,
                AlignerOp::SetHeuristic { heuristic: *heuristic },
            ),
    {
        match *heuristic {
            HeuristicStrategy::NoHeuristic => {
                self.heuristic.strategy = HEURISTIC_NONE;
            },
            HeuristicStrategy::BandedStatic { band_min_k, band_max_k } => {
                self.heuristic.strategy = self.heuristic.strategy | HEURISTIC_BANDED_STATIC;
                self.heuristic.min_k = band_min_k;
                self.heuristic.max_k = band_max_k;
            },
            HeuristicStrategy::BandedAdaptive { band_min_k, band_max_k, score_steps } => {
                self.heuristic.strategy = self.heuristic.strategy | HEURISTIC_BANDED_ADAPTIVE;
                self.heuristic.min_k = band_min_k;
                self.heuristic.max_k = band_max_k;
                self.heuristic.steps_between_cutoffs = score_steps;
            },
            HeuristicStrategy::WFAdaptive {
                min_wavefront_length,
                max_distance_threshold,
                score_steps,
            } => {
                self.heuristic.strategy = self.heuristic.strategy | HEURISTIC_WFADAPTIVE;
                self.heuristic.min_wavefront_length = min_wavefront_length;
                self.heuristic.max_distance_threshold = max_distance_threshold;
                self.heuristic.steps_between_cutoffs = score_steps;
            },
            HeuristicStrategy::XDrop { xdrop, score_steps } => {
                self.heuristic.strategy = self.heuristic.strategy | HEURISTIC_XDROP;
                self.heuristic.xdrop = xdrop;
                self.heuristic.steps_between_cutoffs = score_steps;
            },
            HeuristicStrategy::ZDrop { zdrop, score_steps } => {
                self.heuristic.strategy = self.heuristic.strategy | HEURISTIC_ZDROP;
                self.heuristic.zdrop = zdrop;
                self.heuristic.steps_between_cutoffs = score_steps;
            },
            HeuristicStrategy::WFMash {
                min_wavefront_length,
                max_distance_threshold,
                score_steps,
            } => {
                self.heuristic.strategy = self.heuristic.strategy | HEURISTIC_WFMASH;
                self.heuristic.min_wavefront_length = min_wavefront_length;
                self.heuristic.max_distance_threshold = max_distance_threshold;
                self.heuristic.steps_between_cutoffs = score_steps;
            },
        }
    }

    /// Reconstructs the active strategies by testing each known flag
    /// independently, in the fixed enumeration order.
    pub fn get_heuristics(&self) -> (hs: Vec<HeuristicStrategy>)
        ensures
            hs@ == heuristics_of(self@.heuristic),
    {
        let mut hs: Vec<HeuristicStrategy> = Vec::new();
        let heuristic = self.heuristic;
        let strategy = heuristic.strategy;

        if strategy & HEURISTIC_ZDROP > 0 {
            hs.push(HeuristicStrategy::ZDrop {
                zdrop: heuristic.zdrop,
                score_steps: heuristic.steps_between_cutoffs,
            });
        }
        if strategy & HEURISTIC_XDROP > 0 {
            hs.push(HeuristicStrategy::XDrop {
                xdrop: heuristic.xdrop,
                score_steps: heuristic.steps_between_cutoffs,
            });
        }
        if strategy & HEURISTIC_BANDED_ADAPTIVE > 0 {
            hs.push(HeuristicStrategy::BandedAdaptive {
                band_min_k: heuristic.min_k,
                band_max_k: heuristic.max_k,
                score_steps: heuristic.steps_between_cutoffs,
            });
        }
        if strategy & HEURISTIC_BANDED_STATIC > 0 {
            hs.push(HeuristicStrategy::BandedStatic {
                band_min_k: heuristic.min_k,
                band_max_k: heuristic.max_k,
            });
        }
        if strategy & HEURISTIC_WFADAPTIVE > 0 {
            hs.push(HeuristicStrategy::WFAdaptive {
                min_wavefront_length: heuristic.min_wavefront_length,
                max_distance_threshold: heuristic.max_distance_threshold,
                score_steps: heuristic.steps_between_cutoffs,
            });
        }
        if strategy & HEURISTIC_WFMASH > 0 {
            hs.push(HeuristicStrategy::WFMash {
                min_wavefront_length: heuristic.min_wavefront_length,
                max_distance_threshold: heuristic.max_distance_threshold,
                score_steps: heuristic.steps_between_cutoffs,
            });
        }
        proof {
            assert(hs@ =~= heuristics_of(self@.heuristic));
        }
        hs
    }

    /// Directs the engine to compute only a score, or a full CIGAR.
    /// `Undefined` cannot be set: it is a read-back sentinel only, and
    /// requesting it is a contract violation.
    pub fn set_alignment_scope(&mut self, scope: AlignmentScope)
        requires
            scope != AlignmentScope::Undefined,
        ensures
            final(self)@ == model_step(old(self)@, AlignerOp::SetAlignmentScope { scope }),
    {
        self.alignment_scope = match scope {
            AlignmentScope::ComputeScore => SCOPE_COMPUTE_SCORE,
            AlignmentScope::Alignment => SCOPE_COMPUTE_ALIGNMENT,
            AlignmentScope::Undefined => vstd::pervasive::unreached(),
        };
    }

    /// The current alignment scope, decoded from its native code.
    pub fn get_alignment_scope(&self) -> (scope: AlignmentScope)
        ensures
            scope == decode_scope(self@.alignment_scope),
    {
        AlignmentScope::from_scope(self.alignment_scope)
    }

    /// Sets end-to-end or free-ends span semantics. Setting `Undefined`
    /// is deliberately inert: it means "leave the engine's span as it
    /// is", not an error.
    pub fn set_alignment_span(&mut self, span: AlignmentSpan)
        ensures
            final(self)@ == model_step(old(self)@, AlignerOp::SetAlignmentSpan { span }),
    {
        match span {
            AlignmentSpan::End2End => {
                self.alignment_form = AlignmentForm {
                    span: SPAN_END2END,
                    pattern_begin_free: 0,
                    pattern_end_free: 0,
                    text_begin_free: 0,
                    text_end_free: 0,
                };
            },
            AlignmentSpan::EndsFree {
                pattern_begin_free,
                pattern_end_free,
                text_begin_free,
                text_end_free,
            } => {
                self.alignment_form = AlignmentForm {
                    span: SPAN_ENDSFREE,
                    pattern_begin_free,
                    pattern_end_free,
                    text_begin_free,
                    text_end_free,
                };
            },
            AlignmentSpan::Undefined => (),
        }
    }

    /// The current alignment span, decoded from the form structure.
    pub fn get_alignment_span(&self) -> (span: AlignmentSpan)
        ensures
            span == decode_span(self@.alignment_form),
    {
        AlignmentSpan::from_form(self.alignment_form)
    }

    /// The memory mode bound at construction, decoded from its native
    /// code. No operation on a live handle changes it.
    pub fn get_memory_mode(&self) -> (mode: MemoryMode)
        ensures
            mode == decode_memory_mode(self@.memory_mode),
    {
        MemoryMode::from_value(self.memory_mode)
    }

    /// Bounds the engine's internal search effort; exceeding the bound
    /// during a call yields `MaxStepsReached` instead of `Completed`.
    pub fn set_max_alignment_steps(&mut self, steps: i32)
        ensures
            final(self)@ == model_step(old(self)@, AlignerOp::SetMaxAlignmentSteps { steps }),
    {
        self.max_alignment_steps = steps;
    }

    /// Alias for `set_max_alignment_steps`: in this engine generation
    /// the score and step budgets share one underlying limit, so the
    /// two cannot be tuned independently.
    pub fn set_max_alignment_score(&mut self, score: i32)
        ensures
            final(self)@ == model_step(old(self)@, AlignerOp::SetMaxAlignmentSteps { steps: score }),
    {
        self.set_max_alignment_steps(score);
    }

    /// The step/score limit currently bound.
    pub fn get_max_alignment_steps(&self) -> (steps: i32)
        ensures
            steps == self@.max_alignment_steps,
    {
        self.max_alignment_steps
    }

    /// The most recent alignment's CIGAR: a byte sequence over the
    /// alphabet M/=/X/I/D, copied out of the result buffer window when
    /// the result was applied.
    pub fn cigar(&self) -> (cigar: &[u8])
        ensures
            cigar@ == self@.cigar,
    {
        self.cigar_operations.as_slice()
    }

    /// The most recent alignment's score. Meaningful only after a
    /// result has been applied; under the ultralow memory tier the
    /// engine reports a sentinel minimum instead of a usable cost.
    pub fn score(&self) -> (score: i32)
        ensures
            score == self@.score,
    {
        self.alignment_score
    }

    /// Decodes one engine result into the public result types: maps
    /// the native status code exactly, and stores the score and the
    /// `[begin_offset, end_offset)` window of the CIGAR operations
    /// buffer as the handle's current result. The configuration
    /// (profile and directives) is untouched, whatever the outcome.
    pub fn apply_alignment_result(
        &mut self,
        status_code: i32,
        score: i32,
        operations: &[u8],
        begin_offset: usize,
        end_offset: usize,
    ) -> (status: AlignmentStatus)
        requires
            begin_offset <= end_offset <= operations@.len(),
        ensures
            status == decode_status(status_code),
            final(self)@ == model_step(
                old(self)@,
                AlignerOp::ApplyResult {
                    status_code,
                    score,
                    operations: operations@,
                    begin_offset: begin_offset as int,
                    end_offset: end_offset as int,
                },
            ),
    {
        let mut window: Vec<u8> = Vec::new();
        let mut i: usize = begin_offset;
        while i < end_offset
            invariant
                begin_offset <= i <= end_offset,
                end_offset <= operations@.len(),
                window@ == operations@.subrange(begin_offset as int, i as int),
            decreases end_offset - i,
        {
            window.push(operations[i]);
            i = i + 1;
            proof {
                assert(window@ =~= operations@.subrange(begin_offset as int, i as int));
            }
        }
        self.cigar_operations = window;
        self.alignment_score = score;
        AlignmentStatus::from(status_code)
    }
}

// ---------------------------------------------------------------------
// The builder.
// ---------------------------------------------------------------------

/// The configuration a builder has accumulated.
pub struct BuilderConfig {
    pub distance_metric: DistanceMetric,
    pub match_score: i32,
    pub mismatch_penalty: i32,
    pub gap_opening1: i32,
    pub gap_extension1: i32,
    pub gap_opening2: Option<i32>,
    pub gap_extension2: Option<i32>,
    pub memory_mode: MemoryMode,
    pub heuristic: HeuristicStrategy,
    pub alignment_scope: AlignmentScope,
}

/// The builder's starting configuration: gap-affine, penalties
/// 0/4/6/2, no second gap curve, high memory, no heuristic, full
/// alignment scope.
pub open spec fn default_builder_config() -> BuilderConfig {
    BuilderConfig {
        distance_metric: DistanceMetric::GapAffine,
        match_score: 0,
        mismatch_penalty: 4,
        gap_opening1: 6,
        gap_extension1: 2,
        gap_opening2: Option::None,
        gap_extension2: Option::None,
        memory_mode: MemoryMode::High,
        heuristic: HeuristicStrategy::NoHeuristic,
        alignment_scope: AlignmentScope::Alignment,
    }
}

pub open spec fn option_or(o: Option<i32>, default: i32) -> i32 {
    match o {
        Option::Some(v) => v,
        Option::None => default,
    }
}

/// The handle a builder configuration produces: the construction path
/// chosen by the resolved distance metric, then the heuristic and
/// scope applied as post-construction directives.
pub open spec fn build_model(b: BuilderConfig) -> AlignerModel {
    let base = if b.distance_metric == DistanceMetric::GapAffine {
        gap_affine_model(b.match_score, b.mismatch_penalty, b.gap_opening1, b.gap_extension1, b.memory_mode)
    } else {
        gap_affine_2p_model(
            b.match_score,
            b.mismatch_penalty,
            b.gap_opening1,
            b.gap_extension1,
            option_or(b.gap_opening2, 12),
            option_or(b.gap_extension2, 1),
            b.memory_mode,
        )
    };
    let with_heuristic = model_step(base, AlignerOp::SetHeuristic { heuristic: b.heuristic });
    model_step(with_heuristic, AlignerOp::SetAlignmentScope { scope: b.alignment_scope })
}

/// Assembles a consistent aligner handle from incrementally specified
/// fields, choosing the construction path from the resolved distance
/// metric.
pub struct AffineWavefrontsBuilder {
    distance_metric: DistanceMetric,
    match_score: i32,
    mismatch_penalty: i32,
    gap_opening1: i32,
    gap_extension1: i32,
    gap_opening2: Option<i32>,
    gap_extension2: Option<i32>,
    memory_mode: MemoryMode,
    heuristic: HeuristicStrategy,
    alignment_scope: AlignmentScope,
}

impl View for AffineWavefrontsBuilder {
    type V = BuilderConfig;

    closed spec fn view(&self) -> BuilderConfig {
        BuilderConfig {
            distance_metric: self.distance_metric,
            match_score: self.match_score,
            mismatch_penalty: self.mismatch_penalty,
            gap_opening1: self.gap_opening1,
            gap_extension1: self.gap_extension1,
            gap_opening2: self.gap_opening2,
            gap_extension2: self.gap_extension2,
            memory_mode: self.memory_mode,
            heuristic: self.heuristic,
            alignment_scope: self.alignment_scope,
        }
    }
}

impl Default for AffineWavefrontsBuilder {
    fn default() -> (builder: Self)
        ensures
            builder@ == default_builder_config(),
    {
        AffineWavefrontsBuilder {
            distance_metric: DistanceMetric::GapAffine,
            match_score: 0,
            mismatch_penalty: 4,
            gap_opening1: 6,
            gap_extension1: 2,
            gap_opening2: Option::None,
            gap_extension2: Option::None,
            memory_mode: MemoryMode::High,
            heuristic: HeuristicStrategy::NoHeuristic,
            alignment_scope: AlignmentScope::Alignment,
        }
    }
}

impl AffineWavefrontsBuilder {
    pub fn new() -> (builder: Self)
        ensures
            builder@ == default_builder_config(),
    {
        Self::default()
    }

    /// Requests a distance metric; `build` accepts only the two
    /// implemented affine metrics.
    pub fn distance_metric(self, metric: DistanceMetric) -> (builder: Self)
        ensures
            builder@ == (BuilderConfig { distance_metric: metric, ..self@ }),
    {
        let mut builder = self;
        builder.distance_metric = metric;
        builder
    }

    /// Sets the match score, mismatch penalty, and first gap curve.
    pub fn penalties(self, match_: i32, mismatch: i32, gap_open: i32, gap_ext: i32) -> (builder:
        Self)
        ensures
            builder@ == (BuilderConfig {
                match_score: match_,
                mismatch_penalty: mismatch,
                gap_opening1: gap_open,
                gap_extension1: gap_ext,
                ..self@
            }),
    {
        let mut builder = self;
        builder.match_score = match_;
        builder.mismatch_penalty = mismatch;
        builder.gap_opening1 = gap_open;
        builder.gap_extension1 = gap_ext;
        builder
    }

    /// Sets the second gap curve and forces the two-piece-affine
    /// metric: supplying dual penalties implies it, as a builder-level
    /// invariant rather than a caller convention.
    pub fn dual_affine_penalties(self, gap_open2: i32, gap_ext2: i32) -> (builder: Self)
        ensures
            builder@ == (BuilderConfig {
                distance_metric: DistanceMetric::GapAffine2p,
                gap_opening2: Option::Some(gap_open2),
                gap_extension2: Option::Some(gap_ext2),
                ..self@
            }),
    {
        let mut builder = self;
        builder.distance_metric = DistanceMetric::GapAffine2p;
        builder.gap_opening2 = Option::Some(gap_open2);
        builder.gap_extension2 = Option::Some(gap_ext2);
        builder
    }

    /// Selects the memory tier the handle will be bound to.
    pub fn memory_mode(self, mode: MemoryMode) -> (builder: Self)
        ensures
            builder@ == (BuilderConfig { memory_mode: mode, ..self@ }),
    {
        let mut builder = self;
        builder.memory_mode = mode;
        builder
    }

    /// Selects the initial heuristic directive.
    pub fn heuristic(self, strategy: HeuristicStrategy) -> (builder: Self)
        ensures
            builder@ == (BuilderConfig { heuristic: strategy, ..self@ }),
    {
        let mut builder = self;
        builder.heuristic = strategy;
        builder
    }

    /// Selects the initial alignment scope directive.
    pub fn alignment_scope(self, scope: AlignmentScope) -> (builder: Self)
        ensures
            builder@ == (BuilderConfig { alignment_scope: scope, ..self@ }),
    {
        let mut builder = self;
        builder.alignment_scope = scope;
        builder
    }

    /// Dispatches to the construction path of the resolved distance
    /// metric, then applies the heuristic and scope directives. The
    /// reserved metrics (`Indel`, `Edit`) are not implemented by this
    /// path, and `Undefined` memory mode or scope is a contract
    /// violation, so all three are refused up front.
    pub fn build(self) -> (aligner: AffineWavefronts)
        requires
            self@.distance_metric == DistanceMetric::GapAffine || self@.distance_metric
                == DistanceMetric::GapAffine2p,
            self@.memory_mode != MemoryMode::Undefined,
            self@.alignment_scope != AlignmentScope::Undefined,
        ensures
            aligner@ == build_model(self@),
    {
        let mut aligner = match self.distance_metric {
            DistanceMetric::GapAffine => AffineWavefronts::with_penalties_and_memory_mode(
                self.match_score,
                self.mismatch_penalty,
                self.gap_opening1,
                self.gap_extension1,
                self.memory_mode,
            ),
            DistanceMetric::GapAffine2p => AffineWavefronts::with_penalties_affine2p_and_memory_mode(
                self.match_score,
                self.mismatch_penalty,
                self.gap_opening1,
                self.gap_extension1,
                match self.gap_opening2 {
                    Option::Some(v) => v,
                    Option::None => 12,
                },
                match self.gap_extension2 {
                    Option::Some(v) => v,
                    Option::None => 1,
                },
                self.memory_mode,
            ),
            DistanceMetric::Indel => vstd::pervasive::unreached(),
            DistanceMetric::Edit => vstd::pervasive::unreached(),
        };

        aligner.set_heuristic(&self.heuristic);
        aligner.set_alignment_scope(self.alignment_scope);

        aligner
    }
}

} // verus!
