#[test]
fn test_memory_reduction_math() {
    let sample_baseline = 3737.49f64;
    let sample_rust = 4.78f64;
    let reduction = (1.0 - (sample_rust / sample_baseline)) * 100.0;
    assert!(reduction > 99.8, "Reduction must exceed 99.8%");
}
