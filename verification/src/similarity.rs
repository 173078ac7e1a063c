//! Similarity scoring between fixed-length hexadecimal fingerprints.
//!
//! A fingerprint packs one bit per image cell into hexadecimal digits, four
//! bits per digit.  The similarity of two fingerprints of equal length is one
//! minus their normalized Hamming distance over those bits.  Scores are kept
//! as exact rationals so that every claim about them can be verified.

use vstd::prelude::*;

verus! {

/// Spec-level value of a hexadecimal digit, reading any non-hex character as
/// zero, exactly as `char::to_digit(16).unwrap_or(0)` does.
pub open spec fn hex_val(c: char) -> u32 {
    let v = c as u32;
    if 48 <= v && v <= 57 {
        (v - 48) as u32
    } else if 97 <= v && v <= 102 {
        (v - 87) as u32
    } else if 65 <= v && v <= 70 {
        (v - 55) as u32
    } else {
        0
    }
}

/// Number of set bits among the low four bits of `x`.
pub open spec fn popcount4(x: u32) -> nat {
    ((x & 1) + ((x >> 1) & 1) + ((x >> 2) & 1) + ((x >> 3) & 1)) as nat
}

/// Bits that differ between the first `n` digit pairs of `a` and `b`.
pub open spec fn hamming_to(a: Seq<char>, b: Seq<char>, n: int) -> nat
    decreases n,
{
    if n <= 0 {
        0
    } else {
        hamming_to(a, b, n - 1) + popcount4(hex_val(a[n - 1]) ^ hex_val(b[n - 1]))
    }
}

/// Bits that differ between two equal-length fingerprints.
pub open spec fn hamming(a: Seq<char>, b: Seq<char>) -> nat {
    hamming_to(a, b, a.len() as int)
}

/// The exact similarity score of two fingerprints, as a rational
/// numerator/denominator pair.  Fingerprints of differing length score
/// zero; two empty fingerprints score one by convention; otherwise the
/// score is `1 - hamming/(4*len)`.
pub open spec fn spec_similarity(a: Seq<char>, b: Seq<char>) -> (nat, nat) {
    if a.len() != b.len() {
        (0nat, 1nat)
    } else if a.len() == 0 {
        (1nat, 1nat)
    } else {
        ((4 * a.len() - hamming(a, b)) as nat, 4 * a.len())
    }
}

/// An exact similarity score in `[0, 1]`, stored as the rational
/// `num / den`.
#[derive(Clone, Copy, Debug, PartialEq, Eq, Structural)]
pub struct Similarity {
    /// Numerator of the score.
    pub num: u128,
    /// Denominator of the score; always positive.
    pub den: u128,
}

/// A similarity threshold in `[0, 1]`, stored as the rational `num / den`.
/// The denominator is capped at one million (a threshold is a configuration
/// knob, not a measurement), which keeps every comparison overflow-free.
#[derive(Clone, Copy, Debug, PartialEq, Eq, Structural)]
pub struct Threshold {
    /// Numerator of the threshold.
    pub num: u64,
    /// Denominator of the threshold; positive and at most one million.
    pub den: u64,
}

pub const THRESHOLD_MAX_DEN: u64 = 1000000;

impl Threshold {
    /// Validity of a threshold: a genuine fraction in `[0, 1]` with a
    /// bounded denominator.
    pub open spec fn wf(self) -> bool {
        0 < self.den <= THRESHOLD_MAX_DEN && self.num <= self.den
    }

    /// Builds a threshold, rejecting fractions outside `[0, 1]` or with a
    /// denominator that is zero or over the cap.
    pub fn new(num: u64, den: u64) -> (r: Option<Threshold>)
        ensures
            r is Some <==> (0 < den <= THRESHOLD_MAX_DEN && num <= den),
            r is Some ==> r->0 == (Threshold { num, den }) && r->0.wf(),
    {
        if 0 < den && den <= THRESHOLD_MAX_DEN && num <= den {
            Some(Threshold { num, den })
        } else {
            None
        }
    }
}

impl Similarity {
    /// Validity of a score: a genuine fraction in `[0, 1]`.
    pub open spec fn wf(self) -> bool {
        0 < self.den && self.num <= self.den
    }

    /// Whether the score equals one.
    pub fn is_one(&self) -> (r: bool)
        requires
            self.wf(),
        ensures
            r <==> self.num == self.den,
    {
        self.num == self.den
    }

    /// Whether the score equals zero.
    pub fn is_zero(&self) -> (r: bool)
        ensures
            r <==> self.num == 0,
    {
        self.num == 0
    }

    /// Whether the score reaches the threshold, decided exactly by
    /// cross-multiplication.
    pub fn at_least(&self, t: &Threshold) -> (r: bool)
        requires
            self.wf(),
            t.wf(),
            self.den <= u64::MAX as u128 * 4,
        ensures
            r <==> self.num * t.den >= t.num as u128 * self.den,
    {
        proof {
            assert(self.num * t.den as u128 <= u128::MAX && t.num as u128 * self.den
                <= u128::MAX) by (nonlinear_arith)
                requires
                    self.num <= self.den,
                    self.den <= u64::MAX as u128 * 4,
                    t.den <= THRESHOLD_MAX_DEN,
                    t.num <= t.den,
            ;
        }
        self.num * (t.den as u128) >= (t.num as u128) * self.den
    }
}

/// Value of one hexadecimal digit, reading any non-hex character as zero.
fn hex_digit_val(c: char) -> (r: u32)
    ensures
        r == hex_val(c),
        r < 16,
{
    let v = c as u32;
    if 48 <= v && v <= 57 {
        v - 48
    } else if 97 <= v && v <= 102 {
        v - 87
    } else if 65 <= v && v <= 70 {
        v - 55
    } else {
        0
    }
}

/// Number of set bits among the low four bits of `x`.
fn popcount4_exec(x: u32) -> (r: u32)
    ensures
        r == popcount4(x),
        r <= 4,
{
    proof {
        lemma_popcount4_bound(x);
    }
    (x & 1) + ((x >> 1) & 1) + ((x >> 2) & 1) + ((x >> 3) & 1)
}

/// At most four bits are counted.
proof fn lemma_popcount4_bound(x: u32)
    ensures
        popcount4(x) <= 4,
        (x & 1) + ((x >> 1) & 1) + ((x >> 2) & 1) + ((x >> 3) & 1) <= 4,
{
    assert((x & 1) <= 1 && ((x >> 1) & 1) <= 1 && ((x >> 2) & 1) <= 1 && ((x >> 3) & 1) <= 1)
        by (bit_vector);
}

/// Every per-digit contribution is at most four bits, so the distance over
/// `n` digits is at most `4 * n`.
pub proof fn lemma_hamming_to_bound(a: Seq<char>, b: Seq<char>, n: int)
    requires
        n >= 0,
    ensures
        hamming_to(a, b, n) <= 4 * n,
    decreases n,
{
    if n > 0 {
        lemma_hamming_to_bound(a, b, n - 1);
        lemma_popcount4_bound(hex_val(a[n - 1]) ^ hex_val(b[n - 1]));
    }
}

/// A fingerprint is at distance zero from itself.
pub proof fn lemma_hamming_to_self(a: Seq<char>, n: int)
    ensures
        hamming_to(a, a, n) == 0,
    decreases n,
{
    if n > 0 {
        lemma_hamming_to_self(a, n - 1);
        assert(hex_val(a[n - 1]) ^ hex_val(a[n - 1]) == 0) by (bit_vector);
        assert((0u32 & 1) + ((0u32 >> 1) & 1) + ((0u32 >> 2) & 1) + ((0u32 >> 3) & 1) == 0)
            by (bit_vector);
    }
}

/// The Hamming distance does not depend on the order of its arguments.
pub proof fn lemma_hamming_to_symmetric(a: Seq<char>, b: Seq<char>, n: int)
    ensures
        hamming_to(a, b, n) == hamming_to(b, a, n),
    decreases n,
{
    if n > 0 {
        lemma_hamming_to_symmetric(a, b, n - 1);
        let x = hex_val(a[n - 1]);
        let y = hex_val(b[n - 1]);
        assert(x ^ y == y ^ x) by (bit_vector);
    }
}

/// Identical fingerprints score exactly one: the numerator equals the
/// denominator.
pub proof fn lemma_similarity_identical(a: Seq<char>)
    ensures
        spec_similarity(a, a).0 == spec_similarity(a, a).1,
        a.len() > 0 ==> spec_similarity(a, a).1 == 4 * a.len(),
{
    lemma_hamming_to_self(a, a.len() as int);
}

/// Similarity is symmetric in its two arguments.
pub proof fn lemma_similarity_symmetric(a: Seq<char>, b: Seq<char>)
    ensures
        spec_similarity(a, b) == spec_similarity(b, a),
{
    lemma_hamming_to_symmetric(a, b, a.len() as int);
}

/// Fingerprints of differing length always score zero.
pub proof fn lemma_similarity_length_mismatch(a: Seq<char>, b: Seq<char>)
    requires
        a.len() != b.len(),
    ensures
        spec_similarity(a, b) == (0nat, 1nat),
{
}

/// Equal-length fingerprints whose digits differ in every single bit score
/// exactly zero.
pub proof fn lemma_similarity_all_bits_differ(a: Seq<char>, b: Seq<char>)
    requires
        a.len() == b.len(),
        a.len() > 0,
        forall|i: int| 0 <= i < a.len() ==> popcount4(hex_val(a[i]) ^ hex_val(b[i])) == 4,
    ensures
        spec_similarity(a, b).0 == 0,
        spec_similarity(a, b).1 == 4 * a.len(),
{
    lemma_hamming_to_full(a, b, a.len() as int);
}

proof fn lemma_hamming_to_full(a: Seq<char>, b: Seq<char>, n: int)
    requires
        0 <= n <= a.len(),
        forall|i: int| 0 <= i < a.len() ==> popcount4(hex_val(a[i]) ^ hex_val(b[i])) == 4,
    ensures
        hamming_to(a, b, n) == 4 * n,
    decreases n,
{
    if n > 0 {
        lemma_hamming_to_full(a, b, n - 1);
    }
}

/// Bits that differ between two equal-length fingerprints, counted over
/// their packed four-bit digits.
pub fn hamming_distance(a: &str, b: &str) -> (r: u128)
    requires
        a@.len() == b@.len(),
    ensures
        r == hamming(a@, b@),
{
    let n: usize = a.unicode_len();
    let mut i: usize = 0;
    let mut acc: u128 = 0;
    while i < n
        invariant
            0 <= i <= n,
            n == a@.len() == b@.len(),
            acc == hamming_to(a@, b@, i as int),
        decreases n - i,
    {
        proof {
            lemma_hamming_to_bound(a@, b@, i as int);
        }
        let ca = a.get_char(i);
        let cb = b.get_char(i);
        let d = popcount4_exec(hex_digit_val(ca) ^ hex_digit_val(cb));
        acc = acc + d as u128;
        i = i + 1;
    }
    acc
}

} // verus!
