use slide_extractor::frames::HashAlgorithm;
use slide_extractor::hashing::PerceptualHasher;
use slide_extractor::similarity::Similarity;

fn as_f64(s: &Similarity) -> f64 {
    s.num as f64 / s.den as f64
}

#[test]
fn test_perceptual_hasher_new() {
    let hasher = PerceptualHasher::new();
    assert_eq!(hasher.algorithm, HashAlgorithm::Average);
    assert_eq!(hasher.hash_size, 8);
}

#[test]
fn test_perceptual_hasher_with_algorithm() {
    let hasher = PerceptualHasher::with_algorithm(HashAlgorithm::Difference);
    assert_eq!(hasher.algorithm, HashAlgorithm::Difference);
    assert_eq!(hasher.hash_size, 8);
}

#[test]
fn test_perceptual_hasher_with_settings() {
    let hasher = PerceptualHasher::with_settings(HashAlgorithm::Perceptual, 16);
    assert_eq!(hasher.algorithm, HashAlgorithm::Perceptual);
    assert_eq!(hasher.hash_size, 16);
}

#[test]
fn test_bits_to_hex() {
    let hasher = PerceptualHasher::new();
    let bits = vec![1, 0, 1, 0, 1, 1, 0, 0, 1, 1];
    let hex = hasher.bits_to_hex(&bits);
    assert_eq!(hex, "acc");
}

#[test]
fn test_perceptual_hasher_default() {
    let hasher = PerceptualHasher::default();
    assert_eq!(hasher.algorithm, HashAlgorithm::Average);
    assert_eq!(hasher.hash_size, 8);
}

#[test]
fn test_compute_similarity_identical() {
    let hash1 = "a1b2c3d4e5f6";
    let hash2 = "a1b2c3d4e5f6";
    let similarity = PerceptualHasher::compute_similarity(hash1, hash2);
    assert_eq!(as_f64(&similarity), 1.0);
}

#[test]
fn test_compute_similarity_completely_different() {
    let hash1 = "a1b2c3d4e5f6";
    let hash2 = "fedcba987654";
    let similarity = PerceptualHasher::compute_similarity(hash1, hash2);
    assert!(as_f64(&similarity) < 0.5);
}

#[test]
fn test_compute_similarity_partial_match() {
    let hash1 = "a1b2c3d4e5f6";
    let hash2 = "a1b2c3d4e5f0"; // Only last digit differs
    let similarity = PerceptualHasher::compute_similarity(hash1, hash2);
    assert!(as_f64(&similarity) > 0.9);
}

#[test]
fn test_compute_similarity_length_mismatch() {
    let similarity = PerceptualHasher::compute_similarity("ffff", "ffffff");
    assert_eq!(as_f64(&similarity), 0.0);
}

#[test]
fn test_compute_similarity_empty() {
    let similarity = PerceptualHasher::compute_similarity("", "");
    assert_eq!(as_f64(&similarity), 1.0);
}

#[test]
fn test_compute_ahash() {
    let data = b"test data";
    let hash = PerceptualHasher::compute_ahash(data);
    assert!(!hash.is_empty());
    assert_eq!(hash.len(), 16);
}

// Two sixteen-bit fingerprints that differ in exactly one bit score
// fifteen sixteenths.
#[test]
fn test_one_bit_difference_score() {
    let similarity = PerceptualHasher::compute_similarity("ffff", "fffe");
    assert_eq!(similarity.num, 15);
    assert_eq!(similarity.den, 16);
    assert_eq!(as_f64(&similarity), 0.9375);
}
