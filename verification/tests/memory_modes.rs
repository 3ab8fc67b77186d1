use lib_wfa2::affine_wavefront::{
    AffineWavefrontsBuilder, DistanceMetric, HeuristicStrategy, MemoryMode,
};

#[test]
fn test_builder_all_combinations() {
    println!("\n=== Testing Builder with Various Combinations ===");

    // Test 1: Gap-affine + High memory
    let aligner1 = AffineWavefrontsBuilder::new()
        .penalties(0, 4, 6, 2)
        .memory_mode(MemoryMode::High)
        .build();

    assert_eq!(aligner1.get_memory_mode(), MemoryMode::High);
    assert_eq!(aligner1.get_distance_metric(), DistanceMetric::GapAffine);

    // Test 2: Gap-affine-2p + Ultralow memory
    let aligner2 = AffineWavefrontsBuilder::new()
        .penalties(0, 4, 6, 2)
        .dual_affine_penalties(12, 1)
        .memory_mode(MemoryMode::Ultralow)
        .build();

    assert_eq!(aligner2.get_memory_mode(), MemoryMode::Ultralow);
    assert_eq!(aligner2.get_distance_metric(), DistanceMetric::GapAffine2p);

    // Test 3: With heuristics
    let aligner3 = AffineWavefrontsBuilder::new()
        .penalties(0, 4, 6, 2)
        .memory_mode(MemoryMode::Low)
        .heuristic(HeuristicStrategy::BandedStatic {
            band_min_k: -10,
            band_max_k: 10,
        })
        .build();

    assert_eq!(aligner3.get_memory_mode(), MemoryMode::Low);
    let heuristics = aligner3.get_heuristics();
    assert!(!heuristics.is_empty(), "Heuristics should be set");
}
