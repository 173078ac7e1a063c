use slide_extractor::comparer::HashComparer;
use slide_extractor::similarity::{Similarity, Threshold};

fn as_f64(s: &Similarity) -> f64 {
    s.num as f64 / s.den as f64
}

#[test]
fn test_calculate_similarity_identical() {
    let hash1 = "ffffffffffffffff";
    let hash2 = "ffffffffffffffff";
    let similarity = HashComparer::calculate_similarity(hash1, hash2);
    assert!(similarity.is_one());
    assert_eq!(as_f64(&similarity), 1.0);
}

#[test]
fn test_calculate_similarity_completely_different() {
    let hash1 = "ffffffffffffffff";
    let hash2 = "0000000000000000";
    let similarity = HashComparer::calculate_similarity(hash1, hash2);
    assert!(similarity.is_zero());
    assert_eq!(as_f64(&similarity), 0.0);
}

#[test]
fn test_calculate_similarity_partial() {
    // One bit difference in one nibble
    // f is 1111, e is 1110 -> 1 bit difference
    let hash1 = "ffffffffffffffff";
    let hash2 = "fffffffffffffffe";
    let total_bits = 16 * 4; // 64 bits
    let expected = 1.0 - (1.0 / total_bits as f64);
    assert_eq!(
        as_f64(&HashComparer::calculate_similarity(hash1, hash2)),
        expected
    );
}

#[test]
fn test_calculate_similarity_different_lengths() {
    let hash1 = "ffff";
    let hash2 = "ffffff";
    assert_eq!(as_f64(&HashComparer::calculate_similarity(hash1, hash2)), 0.0);
}

// Two empty fingerprints score one by convention; an empty fingerprint
// against a non-empty one is a length mismatch and scores zero.
#[test]
fn test_calculate_similarity_empty() {
    assert_eq!(as_f64(&HashComparer::calculate_similarity("", "ffff")), 0.0);
    assert_eq!(as_f64(&HashComparer::calculate_similarity("", "")), 1.0);
}

// The score is symmetric in its two arguments.
#[test]
fn test_similarity_symmetric() {
    let a = "a1b2c3d4";
    let b = "fedcba98";
    let ab = HashComparer::calculate_similarity(a, b);
    let ba = HashComparer::calculate_similarity(b, a);
    assert_eq!(ab.num, ba.num);
    assert_eq!(ab.den, ba.den);
}

// Threshold comparison decides by exact cross-multiplication.
#[test]
fn test_threshold_comparison() {
    let t = Threshold::new(95, 100).unwrap();
    let high = HashComparer::calculate_similarity("ffff", "ffff");
    let low = HashComparer::calculate_similarity("ffff", "0000");
    assert!(high.at_least(&t));
    assert!(!low.at_least(&t));

    // 15/16 = 0.9375 is under 0.95 but over 0.9.
    let partial = HashComparer::calculate_similarity("ffff", "fffe");
    assert!(!partial.at_least(&t));
    let t90 = Threshold::new(90, 100).unwrap();
    assert!(partial.at_least(&t90));
}

#[test]
fn test_threshold_rejects_bad_fractions() {
    assert!(Threshold::new(5, 0).is_none());
    assert!(Threshold::new(101, 100).is_none());
    assert!(Threshold::new(95, 100).is_some());
}
