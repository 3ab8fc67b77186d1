use lib_wfa2::affine_wavefront::{
    AffineWavefronts, AffineWavefrontsBuilder, AlignmentForm, AlignmentScope, AlignmentSpan,
    AlignmentStatus, DistanceMetric, HeuristicStrategy, MemoryMode, SPAN_END2END, SPAN_ENDSFREE,
};

#[test]
fn status_code_mapping_is_exact() {
    assert_eq!(AlignmentStatus::from(0), AlignmentStatus::Completed);
    assert_eq!(AlignmentStatus::from(1), AlignmentStatus::Partial);
    assert_eq!(AlignmentStatus::from(-100), AlignmentStatus::MaxStepsReached);
    assert_eq!(AlignmentStatus::from(-200), AlignmentStatus::OOM);
    assert_eq!(AlignmentStatus::from(-300), AlignmentStatus::Unattainable);
    // Every unrecognized code is the Undefined fallback.
    assert_eq!(AlignmentStatus::from(2), AlignmentStatus::Undefined);
    assert_eq!(AlignmentStatus::from(-1), AlignmentStatus::Undefined);
    assert_eq!(AlignmentStatus::from(-101), AlignmentStatus::Undefined);
    assert_eq!(AlignmentStatus::from(i32::MIN), AlignmentStatus::Undefined);
    assert_eq!(AlignmentStatus::from(i32::MAX), AlignmentStatus::Undefined);
}

#[test]
fn memory_mode_from_value_round_trip() {
    assert_eq!(MemoryMode::from_value(0), MemoryMode::High);
    assert_eq!(MemoryMode::from_value(1), MemoryMode::Medium);
    assert_eq!(MemoryMode::from_value(2), MemoryMode::Low);
    assert_eq!(MemoryMode::from_value(3), MemoryMode::Ultralow);
    assert_eq!(MemoryMode::from_value(4), MemoryMode::Undefined);
    assert_eq!(MemoryMode::from_value(99), MemoryMode::Undefined);
}

#[test]
fn alignment_scope_from_scope_decodes() {
    assert_eq!(AlignmentScope::from_scope(0), AlignmentScope::ComputeScore);
    assert_eq!(AlignmentScope::from_scope(1), AlignmentScope::Alignment);
    assert_eq!(AlignmentScope::from_scope(7), AlignmentScope::Undefined);
}

#[test]
fn alignment_span_from_form_decodes() {
    let end2end = AlignmentForm {
        span: SPAN_END2END,
        pattern_begin_free: 0,
        pattern_end_free: 0,
        text_begin_free: 0,
        text_end_free: 0,
    };
    assert_eq!(AlignmentSpan::from_form(end2end), AlignmentSpan::End2End);

    let endsfree = AlignmentForm {
        span: SPAN_ENDSFREE,
        pattern_begin_free: 1,
        pattern_end_free: 2,
        text_begin_free: 3,
        text_end_free: 4,
    };
    assert_eq!(
        AlignmentSpan::from_form(endsfree),
        AlignmentSpan::EndsFree {
            pattern_begin_free: 1,
            pattern_end_free: 2,
            text_begin_free: 3,
            text_end_free: 4,
        }
    );

    let unknown = AlignmentForm {
        span: 9,
        pattern_begin_free: 0,
        pattern_end_free: 0,
        text_begin_free: 0,
        text_end_free: 0,
    };
    assert_eq!(AlignmentSpan::from_form(unknown), AlignmentSpan::Undefined);
}

#[test]
fn constructors_bind_profile() {
    let a = AffineWavefronts::with_penalties(0, 4, 6, 2);
    assert_eq!(a.get_memory_mode(), MemoryMode::High);
    assert_eq!(a.get_distance_metric(), DistanceMetric::GapAffine);
    assert!(a.get_heuristics().is_empty());
    assert_eq!(a.get_alignment_scope(), AlignmentScope::Alignment);
    assert_eq!(a.get_alignment_span(), AlignmentSpan::End2End);
    assert_eq!(a.score(), 0);
    assert!(a.cigar().is_empty());

    for mode in [
        MemoryMode::High,
        MemoryMode::Medium,
        MemoryMode::Low,
        MemoryMode::Ultralow,
    ] {
        let a = AffineWavefronts::with_penalties_and_memory_mode(0, 4, 6, 2, mode.clone());
        assert_eq!(a.get_memory_mode(), mode);
        assert_eq!(a.get_distance_metric(), DistanceMetric::GapAffine);

        let b = AffineWavefronts::with_penalties_affine2p_and_memory_mode(
            0,
            4,
            6,
            2,
            12,
            1,
            mode.clone(),
        );
        assert_eq!(b.get_memory_mode(), mode);
        assert_eq!(b.get_distance_metric(), DistanceMetric::GapAffine2p);
    }

    let c = AffineWavefronts::with_penalties_affine2p(0, 4, 6, 2, 12, 1);
    assert_eq!(c.get_memory_mode(), MemoryMode::High);
    assert_eq!(c.get_distance_metric(), DistanceMetric::GapAffine2p);

    let u = AffineWavefronts::new_ultralow();
    assert_eq!(u.get_memory_mode(), MemoryMode::Ultralow);
    assert_eq!(u.get_distance_metric(), DistanceMetric::GapAffine2p);
    assert!(u.get_heuristics().is_empty());
}

#[test]
fn default_handle_uses_engine_template() {
    let a = AffineWavefronts::default();
    assert_eq!(a.get_memory_mode(), MemoryMode::High);
    assert_eq!(a.get_distance_metric(), DistanceMetric::GapAffine);
    assert_eq!(a.get_alignment_scope(), AlignmentScope::Alignment);
    assert_eq!(a.get_alignment_span(), AlignmentSpan::End2End);
    // The engine's default template ships with the adaptive-wavefront
    // heuristic enabled; the named constructors disable it.
    assert_eq!(
        a.get_heuristics(),
        vec![HeuristicStrategy::WFAdaptive {
            min_wavefront_length: 10,
            max_distance_threshold: 50,
            score_steps: 1,
        }]
    );
}

#[test]
fn penalty_mutation_does_not_rebind_metric() {
    let mut a = AffineWavefronts::default();
    assert_eq!(a.get_distance_metric(), DistanceMetric::GapAffine);
    // The documented quirk: writing all six penalty fields in place
    // does not change the distance metric bound at construction.
    a.set_penalties_affine2p(0, 4, 6, 2, 12, 1);
    assert_eq!(a.get_distance_metric(), DistanceMetric::GapAffine);
    assert_eq!(a.get_memory_mode(), MemoryMode::High);

    let mut b = AffineWavefronts::with_penalties_affine2p(0, 4, 6, 2, 12, 1);
    b.set_penalties(1, 5, 7, 3);
    assert_eq!(b.get_distance_metric(), DistanceMetric::GapAffine2p);
}

#[test]
fn heuristic_round_trip_each_variant() {
    let variants = [
        HeuristicStrategy::BandedStatic {
            band_min_k: -10,
            band_max_k: 10,
        },
        HeuristicStrategy::BandedAdaptive {
            band_min_k: -50,
            band_max_k: 50,
            score_steps: 1,
        },
        HeuristicStrategy::WFAdaptive {
            min_wavefront_length: 10,
            max_distance_threshold: 50,
            score_steps: 1,
        },
        HeuristicStrategy::XDrop {
            xdrop: 20,
            score_steps: 20,
        },
        HeuristicStrategy::ZDrop {
            zdrop: 20,
            score_steps: 20,
        },
        HeuristicStrategy::WFMash {
            min_wavefront_length: 10,
            max_distance_threshold: 50,
            score_steps: 1,
        },
    ];
    for h in variants {
        let mut a = AffineWavefronts::with_penalties(0, 4, 6, 2);
        a.set_heuristic(&h);
        assert_eq!(a.get_heuristics(), vec![h.clone()]);
        // Clearing leaves no active heuristic.
        a.set_heuristic(&HeuristicStrategy::NoHeuristic);
        assert!(a.get_heuristics().is_empty());
    }
}

#[test]
fn heuristic_flags_accumulate_in_enumeration_order() {
    let mut a = AffineWavefronts::with_penalties(0, 4, 6, 2);
    a.set_heuristic(&HeuristicStrategy::XDrop {
        xdrop: 50,
        score_steps: 7,
    });
    a.set_heuristic(&HeuristicStrategy::ZDrop {
        zdrop: 9,
        score_steps: 3,
    });
    // Both flags stay active; the read-back order is the fixed
    // flag-testing order (ZDrop before XDrop), and the shared
    // steps-between-cutoffs slot holds the last value written.
    assert_eq!(
        a.get_heuristics(),
        vec![
            HeuristicStrategy::ZDrop {
                zdrop: 9,
                score_steps: 3,
            },
            HeuristicStrategy::XDrop {
                xdrop: 50,
                score_steps: 3,
            },
        ]
    );
}

#[test]
fn scope_and_span_directives_read_back() {
    let mut a = AffineWavefronts::with_penalties(0, 4, 6, 2);

    a.set_alignment_scope(AlignmentScope::ComputeScore);
    assert_eq!(a.get_alignment_scope(), AlignmentScope::ComputeScore);
    a.set_alignment_scope(AlignmentScope::Alignment);
    assert_eq!(a.get_alignment_scope(), AlignmentScope::Alignment);

    let endsfree = AlignmentSpan::EndsFree {
        pattern_begin_free: 1,
        pattern_end_free: 2,
        text_begin_free: 3,
        text_end_free: 4,
    };
    a.set_alignment_span(endsfree.clone());
    assert_eq!(a.get_alignment_span(), endsfree);

    // Setting Undefined is deliberately inert, not an error.
    a.set_alignment_span(AlignmentSpan::Undefined);
    assert_eq!(a.get_alignment_span(), endsfree);

    a.set_alignment_span(AlignmentSpan::End2End);
    assert_eq!(a.get_alignment_span(), AlignmentSpan::End2End);
}

#[test]
fn step_and_score_limits_share_one_bound() {
    let mut a = AffineWavefronts::with_penalties(0, 4, 6, 2);
    assert_eq!(a.get_max_alignment_steps(), i32::MAX);
    a.set_max_alignment_steps(1234);
    assert_eq!(a.get_max_alignment_steps(), 1234);
    // The score limit is an alias for the same underlying bound.
    a.set_max_alignment_score(77);
    assert_eq!(a.get_max_alignment_steps(), 77);
}

#[test]
fn result_decoding_stores_window_and_score() {
    let mut a = AffineWavefronts::with_penalties(0, 4, 6, 2);
    let buffer = b"??MMXI??";
    let status = a.apply_alignment_result(0, -4, buffer, 2, 6);
    assert_eq!(status, AlignmentStatus::Completed);
    assert_eq!(a.cigar(), b"MMXI");
    assert_eq!(a.score(), -4);
    // The configuration is untouched by a result.
    assert_eq!(a.get_memory_mode(), MemoryMode::High);
    assert_eq!(a.get_distance_metric(), DistanceMetric::GapAffine);

    // A later result overwrites the buffer; the old view is gone.
    let status = a.apply_alignment_result(-100, 0, b"MM", 0, 2);
    assert_eq!(status, AlignmentStatus::MaxStepsReached);
    assert_eq!(a.cigar(), b"MM");
    assert_eq!(a.score(), 0);

    // Each native failure code decodes to its own outcome.
    assert_eq!(
        a.apply_alignment_result(1, 0, b"", 0, 0),
        AlignmentStatus::Partial
    );
    assert_eq!(
        a.apply_alignment_result(-200, 0, b"", 0, 0),
        AlignmentStatus::OOM
    );
    assert_eq!(
        a.apply_alignment_result(-300, 0, b"", 0, 0),
        AlignmentStatus::Unattainable
    );
    assert_eq!(
        a.apply_alignment_result(42, 0, b"", 0, 0),
        AlignmentStatus::Undefined
    );
    assert!(a.cigar().is_empty());
}

#[test]
fn ultralow_sentinel_score_is_preserved_not_fixed() {
    // Under the ultralow tier the engine reports the sentinel minimum
    // score with a structurally valid CIGAR; the facade must hand both
    // through unchanged.
    let mut a = AffineWavefronts::new_ultralow();
    let status = a.apply_alignment_result(0, i32::MIN, b"MMMM", 0, 4);
    assert_eq!(status, AlignmentStatus::Completed);
    assert_eq!(a.score(), i32::MIN);
    assert_eq!(a.cigar(), b"MMMM");
    assert_eq!(a.get_memory_mode(), MemoryMode::Ultralow);
}

#[test]
fn builder_determinism_observed() {
    let build = || {
        AffineWavefrontsBuilder::new()
            .penalties(2, 5, 7, 3)
            .dual_affine_penalties(13, 2)
            .memory_mode(MemoryMode::Medium)
            .heuristic(HeuristicStrategy::WFAdaptive {
                min_wavefront_length: 10,
                max_distance_threshold: 50,
                score_steps: 1,
            })
            .alignment_scope(AlignmentScope::ComputeScore)
            .build()
    };
    let mut a1 = build();
    let mut a2 = build();
    assert_eq!(a1.get_memory_mode(), a2.get_memory_mode());
    assert_eq!(a1.get_distance_metric(), a2.get_distance_metric());
    assert_eq!(a1.get_heuristics(), a2.get_heuristics());
    assert_eq!(a1.get_alignment_scope(), a2.get_alignment_scope());
    assert_eq!(a1.get_alignment_span(), a2.get_alignment_span());
    assert_eq!(a1.get_max_alignment_steps(), a2.get_max_alignment_steps());
    let s1 = a1.apply_alignment_result(0, -9, b"MMDMM", 0, 5);
    let s2 = a2.apply_alignment_result(0, -9, b"MMDMM", 0, 5);
    assert_eq!(s1, s2);
    assert_eq!(a1.score(), a2.score());
    assert_eq!(a1.cigar(), a2.cigar());
}

#[test]
fn builder_defaults_and_metric_forcing() {
    let a = AffineWavefrontsBuilder::new().build();
    assert_eq!(a.get_distance_metric(), DistanceMetric::GapAffine);
    assert_eq!(a.get_memory_mode(), MemoryMode::High);
    assert!(a.get_heuristics().is_empty());
    assert_eq!(a.get_alignment_scope(), AlignmentScope::Alignment);

    // dual_affine_penalties forces the two-piece metric even if the
    // metric was set to gap-affine afterwards-overridden order.
    let b = AffineWavefrontsBuilder::new()
        .distance_metric(DistanceMetric::GapAffine)
        .dual_affine_penalties(12, 1)
        .build();
    assert_eq!(b.get_distance_metric(), DistanceMetric::GapAffine2p);

    let c = AffineWavefrontsBuilder::new()
        .alignment_scope(AlignmentScope::ComputeScore)
        .build();
    assert_eq!(c.get_alignment_scope(), AlignmentScope::ComputeScore);
}
