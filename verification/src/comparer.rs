//! Hash comparison used by the deduplication engine.

use vstd::prelude::*;
use crate::similarity::{hamming_distance, lemma_hamming_to_bound, spec_similarity, Similarity};

verus! {

/// Compares perceptual hashes by their exact bit-level similarity.
pub struct HashComparer;

impl HashComparer {
    /// Similarity score of two perceptual hashes, from zero (completely
    /// different) to one (identical), computed from the Hamming distance
    /// over the hexadecimal representation.  A length mismatch scores
    /// zero; two empty hashes score one by convention.
    pub fn calculate_similarity(hash1: &str, hash2: &str) -> (r: Similarity)
        ensures
            r.num == spec_similarity(hash1@, hash2@).0,
            r.den == spec_similarity(hash1@, hash2@).1,
            r.wf(),
            r.den <= u64::MAX as u128 * 4,
    {
        let n1: usize = hash1.unicode_len();
        let n2: usize = hash2.unicode_len();
        if n1 != n2 {
            return Similarity { num: 0, den: 1 };
        }
        if n1 == 0 {
            return Similarity { num: 1, den: 1 };
        }
        let dist = hamming_distance(hash1, hash2);
        proof {
            lemma_hamming_to_bound(hash1@, hash2@, n1 as int);
        }
        let den: u128 = 4 * (n1 as u128);
        Similarity { num: den - dist, den }
    }
}

} // verus!
