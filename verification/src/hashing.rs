//! Perceptual fingerprints of images.
//!
//! An image is downsampled to a small grayscale grid by the imaging
//! library; everything after that — the mean, the per-cell bits, and the
//! packing of bits into hexadecimal digits — is computed here and verified.
//! The similarity of two fingerprints is their exact bit-level agreement.

use vstd::prelude::*;
use crate::error::{DomainResult, ExtractionError};
use crate::frames::{spec_algorithm_name, spec_hash_params_ok, validate_hash_params, ComputeHashCommand, HashAlgorithm, HashComputed};
use crate::ids::{hex_char, lemma_hex_fixed_len, u128_to_hex_fixed};
use crate::similarity::{hamming, hamming_distance, lemma_hamming_to_bound, Similarity};

verus! {

#[verifier::external_type_specification]
#[verifier::external_body]
pub struct ExDynamicImage(image::DynamicImage);

/// A small grayscale image, held opaquely for Verus: one 8-bit sample per
/// pixel, in row-major order.
#[verifier::external_body]
pub struct GrayBuf {
    inner: image::ImageBuffer<image::Luma<u8>, Vec<u8>>,
}

/// The grayscale samples a small image holds, in row-major order.
pub uninterp spec fn gray_pixels(img: GrayBuf) -> Seq<u8>;

/// Relies on `image::open`: reads and decodes an image file; what comes
/// back depends on the file on disk, so nothing is assumed of it.
#[verifier::external_body]
fn open_image(path: &str) -> Option<image::DynamicImage> {
    image::open(path).ok()
}

/// Relies on `DynamicImage::to_luma8`: converts a decoded image to 8-bit
/// grayscale; nothing is assumed of the samples.
#[verifier::external_body]
fn to_gray(img: &image::DynamicImage) -> GrayBuf {
    GrayBuf { inner: img.to_luma8() }
}

/// Relies on `image::imageops::resize`: the result has exactly the
/// requested dimensions, so it holds `width * height` grayscale samples.
#[verifier::external_body]
fn resize_gray(img: &GrayBuf, width: u32, height: u32) -> (r: GrayBuf)
    ensures
        gray_pixels(r).len() == width as nat * height as nat,
{
    GrayBuf {
        inner: image::imageops::resize(
            &img.inner,
            width,
            height,
            image::imageops::FilterType::Lanczos3,
        ),
    }
}

/// Relies on `ImageBuffer::as_raw`: hands out the underlying samples,
/// which lie in row-major order.
#[verifier::external_body]
fn gray_raw(img: &GrayBuf) -> (r: Vec<u8>)
    ensures
        r@ == gray_pixels(*img),
{
    img.inner.as_raw().clone()
}

/// Relies on `ahash::AHasher` with its fixed-key default and the standard
/// `Hasher` protocol; the key is drawn once per process, so nothing is
/// assumed of the value.
#[verifier::external_body]
fn ahash64(data: &[u8]) -> u64 {
    let mut hasher = ahash::AHasher::default();
    std::hash::Hasher::write(&mut hasher, data);
    std::hash::Hasher::finish(&hasher)
}

/// Sum of the first `n` samples.
pub open spec fn pixel_sum(s: Seq<u8>, n: int) -> int
    decreases n,
{
    if n <= 0 {
        0
    } else {
        pixel_sum(s, n - 1) + s[n - 1]
    }
}

/// The mean sample value, rounding down; zero for an empty grid.
pub open spec fn spec_mean(s: Seq<u8>) -> int {
    if s.len() == 0 {
        0
    } else {
        pixel_sum(s, s.len() as int) / s.len() as int
    }
}

/// The bit a sample contributes under the mean rule.
pub open spec fn mean_bit(s: Seq<u8>, mean: int, i: int) -> u8 {
    if s[i] >= mean {
        1u8
    } else {
        0u8
    }
}

/// A sum of `n` samples is at most `255 * n`.
proof fn lemma_pixel_sum_bound(s: Seq<u8>, n: int)
    requires
        0 <= n <= s.len(),
    ensures
        0 <= pixel_sum(s, n) <= 255 * n,
    decreases n,
{
    if n > 0 {
        lemma_pixel_sum_bound(s, n - 1);
    }
}

/// One bit per cell of a downsampled grid: one where the sample is at or
/// above the grid's mean, zero below it.
pub fn average_hash_bits(pixels: &Vec<u8>, side: u32) -> (r: Vec<u8>)
    requires
        1 <= side <= 65,
        pixels@.len() == side * side,
    ensures
        r@.len() == pixels@.len(),
        forall|i: int|
            0 <= i < r@.len() ==> r@[i] == mean_bit(pixels@, spec_mean(pixels@), i),
{
    let n: usize = pixels.len();
    proof {
        assert(1 <= side * side <= 65 * 65) by (nonlinear_arith)
            requires
                1 <= side <= 65,
        ;
    }
    let mut sum: u64 = 0;
    let mut i: usize = 0;
    while i < n
        invariant
            0 <= i <= n,
            n == pixels@.len(),
            n <= 65 * 65,
            sum == pixel_sum(pixels@, i as int),
            sum <= 255 * i,
        decreases n - i,
    {
        sum = sum + pixels[i] as u64;
        i = i + 1;
    }
    proof {
        lemma_pixel_sum_bound(pixels@, n as int);
        assert(pixel_sum(pixels@, n as int) / n as int <= 255) by (nonlinear_arith)
            requires
                0 <= pixel_sum(pixels@, n as int) <= 255 * n,
                n > 0,
        ;
    }
    let wide: u64 = sum / (n as u64);
    let avg: u8 = wide as u8;
    proof {
        assert(avg == spec_mean(pixels@));
    }
    let mut bits: Vec<u8> = Vec::new();
    let mut j: usize = 0;
    while j < n
        invariant
            0 <= j <= n,
            n == pixels@.len(),
            avg == spec_mean(pixels@),
            bits@.len() == j,
            forall|k: int| 0 <= k < j ==> bits@[k] == mean_bit(pixels@, spec_mean(pixels@), k),
        decreases n - j,
    {
        if pixels[j] >= avg {
            bits.push(1);
        } else {
            bits.push(0);
        }
        j = j + 1;
    }
    bits
}

/// The bit a horizontal neighbour pair contributes: one where the left
/// sample is at or above the right one.
pub open spec fn diff_bit(s: Seq<u8>, side: int, y: int, x: int) -> u8 {
    if s[y * (side + 1) + x] >= s[y * (side + 1) + x + 1] {
        1u8
    } else {
        0u8
    }
}

/// One bit per horizontal neighbour pair of a grid one sample wider than
/// it is tall, row by row.
pub fn difference_hash_bits(pixels: &Vec<u8>, side: u32) -> (r: Vec<u8>)
    requires
        1 <= side <= 64,
        pixels@.len() == (side + 1) * side,
    ensures
        r@.len() == side * side,
        forall|y: int, x: int|
            0 <= y < side && 0 <= x < side ==> r@[y * side + x] == diff_bit(
                pixels@,
                side as int,
                y,
                x,
            ),
{
    let mut bits: Vec<u8> = Vec::new();
    let mut y: usize = 0;
    let w: usize = side as usize + 1;
    proof {
        assert((side + 1) * side <= 65 * 64) by (nonlinear_arith)
            requires
                1 <= side <= 64,
        ;
    }
    while y < side as usize
        invariant
            0 <= y <= side,
            1 <= side <= 64,
            w == side + 1,
            pixels@.len() == (side + 1) * side,
            pixels@.len() <= 65 * 64,
            bits@.len() == y * side,
            forall|yy: int, x: int|
                0 <= yy < y && 0 <= x < side ==> bits@[yy * side + x] == diff_bit(
                    pixels@,
                    side as int,
                    yy,
                    x,
                ),
        decreases side - y,
    {
        let mut x: usize = 0;
        while x < side as usize
            invariant
                0 <= y < side,
                0 <= x <= side,
                1 <= side <= 64,
                w == side + 1,
                pixels@.len() == (side + 1) * side,
                pixels@.len() <= 65 * 64,
                bits@.len() == y * side + x,
                forall|yy: int, xx: int|
                    0 <= yy < y && 0 <= xx < side ==> bits@[yy * side + xx] == diff_bit(
                        pixels@,
                        side as int,
                        yy,
                        xx,
                    ),
                forall|xx: int|
                    0 <= xx < x ==> bits@[y * side + xx] == diff_bit(
                        pixels@,
                        side as int,
                        y as int,
                        xx,
                    ),
            decreases side - x,
        {
            proof {
                assert(y * w + x + 1 < (side + 1) * side) by (nonlinear_arith)
                    requires
                        0 <= y < side,
                        0 <= x < side,
                        w == side + 1,
                        1 <= side,
                ;
            }
            let left: u8 = pixels[y * w + x];
            let right: u8 = pixels[y * w + x + 1];
            let ghost old_bits = bits@;
            if left >= right {
                bits.push(1);
            } else {
                bits.push(0);
            }
            proof {
                assert(bits@[y * side + x] == diff_bit(
                    pixels@,
                    side as int,
                    y as int,
                    x as int,
                ));
                assert forall|yy: int, xx: int|
                    0 <= yy < y && 0 <= xx < side implies bits@[yy * side + xx] == diff_bit(
                    pixels@,
                    side as int,
                    yy,
                    xx,
                ) by {
                    assert(0 <= yy * side + xx < y * side) by (nonlinear_arith)
                        requires
                            0 <= yy,
                            0 <= xx,
                            yy < y,
                            xx < side,
                            1 <= side,
                    ;
                    assert(bits@[yy * side + xx] == old_bits[yy * side + xx]);
                }
                assert forall|xx: int|
                    0 <= xx < x + 1 implies bits@[y * side + xx] == diff_bit(
                    pixels@,
                    side as int,
                    y as int,
                    xx,
                ) by {
                    if xx < x {
                        assert(bits@[y * side + xx] == old_bits[y * side + xx]);
                    }
                }
            }
            x = x + 1;
        }
        proof {
            assert forall|yy: int, xx: int|
                0 <= yy < y + 1 && 0 <= xx < side implies bits@[yy * side + xx] == diff_bit(
                pixels@,
                side as int,
                yy,
                xx,
            ) by {
                if yy == y {
                    assert(bits@[y as int * side + xx] == diff_bit(
                        pixels@,
                        side as int,
                        y as int,
                        xx,
                    ));
                }
            }
            assert(y * side + side == (y + 1) * side) by (nonlinear_arith);
        }
        y = y + 1;
    }
    proof {
        assert(bits@.len() == side * side) by (nonlinear_arith)
            requires
                bits@.len() == (side as int) * side,
        ;
    }
    bits
}

/// The value of the four-bit group starting at `i`: most significant bit
/// first, with missing trailing bits read as zero.
pub open spec fn nibble_val(bits: Seq<u8>, i: int) -> nat {
    (8 * group_bit(bits, i) + 4 * group_bit(bits, i + 1) + 2 * group_bit(bits, i + 2) + group_bit(
        bits,
        i + 3,
    )) as nat
}

/// One bit of a group, read as zero past the end.
pub open spec fn group_bit(bits: Seq<u8>, i: int) -> int {
    if 0 <= i < bits.len() && bits[i] == 1 {
        1
    } else {
        0
    }
}

/// The hexadecimal digits that the bits from position `i` on pack into,
/// four bits to a digit, most significant bit first.
pub open spec fn hex_of_bits(bits: Seq<u8>, i: int) -> Seq<char>
    decreases bits.len() + 4 - i,
    when 0 <= i
{
    if i >= bits.len() {
        Seq::empty()
    } else {
        seq![hex_char(nibble_val(bits, i))] + hex_of_bits(bits, i + 4)
    }
}

/// Packing yields one digit per started group of four bits.
pub proof fn lemma_hex_of_bits_len(bits: Seq<u8>, i: int)
    requires
        0 <= i,
    ensures
        i <= bits.len() ==> hex_of_bits(bits, i).len() == (bits.len() - i + 3) / 4,
        i > bits.len() ==> hex_of_bits(bits, i).len() == 0,
    decreases bits.len() + 4 - i,
{
    if i < bits.len() {
        lemma_hex_of_bits_len(bits, i + 4);
    }
}

/// Fingerprint computation: grid size and algorithm settings.
#[derive(Debug, Clone, Copy, PartialEq, Eq, Structural)]
pub struct PerceptualHasher {
    /// The algorithm applied.
    pub algorithm: HashAlgorithm,
    /// Cells per grid side for the mean and difference rules.
    pub hash_size: u32,
}

impl Default for PerceptualHasher {
    /// The default settings: the mean rule over an eight-by-eight grid.
    fn default() -> (r: Self)
        ensures
            r.algorithm is Average,
            r.hash_size == 8,
    {
        PerceptualHasher::new()
    }
}

impl PerceptualHasher {
    /// The default settings: the mean rule over an eight-by-eight grid.
    pub fn new() -> (r: Self)
        ensures
            r.algorithm is Average,
            r.hash_size == 8,
    {
        PerceptualHasher { algorithm: HashAlgorithm::Average, hash_size: 8 }
    }

    /// The given algorithm over an eight-by-eight grid.
    pub fn with_algorithm(algorithm: HashAlgorithm) -> (r: Self)
        ensures
            r.algorithm == algorithm,
            r.hash_size == 8,
    {
        PerceptualHasher { algorithm, hash_size: 8 }
    }

    /// The given algorithm and grid size.
    pub fn with_settings(algorithm: HashAlgorithm, hash_size: u32) -> (r: Self)
        ensures
            r.algorithm == algorithm,
            r.hash_size == hash_size,
    {
        PerceptualHasher { algorithm, hash_size }
    }

    /// Packs bits into hexadecimal digits, four to a digit, most
    /// significant bit first within each digit.
    pub fn bits_to_hex(&self, bits: &Vec<u8>) -> (r: String)
        ensures
            r@ == hex_of_bits(bits@, 0),
            r@.len() == (bits@.len() + 3) / 4,
    {
        let n: usize = bits.len();
        let mut s = String::new();
        let mut i: usize = 0;
        proof {
            assert(s@ + hex_of_bits(bits@, 0) =~= hex_of_bits(bits@, 0));
        }
        while i < n
            invariant
                0 <= i <= n,
                n == bits@.len(),
                s@ + hex_of_bits(bits@, i as int) =~= hex_of_bits(bits@, 0),
            decreases n - i,
        {
            let b0: u64 = if bits[i] == 1 {
                1
            } else {
                0
            };
            let b1: u64 = if n - i >= 2 && bits[i + 1] == 1 {
                1
            } else {
                0
            };
            let b2: u64 = if n - i >= 3 && bits[i + 2] == 1 {
                1
            } else {
                0
            };
            let b3: u64 = if n - i >= 4 && bits[i + 3] == 1 {
                1
            } else {
                0
            };
            let value: u64 = 8 * b0 + 4 * b1 + 2 * b2 + b3;
            let ghost prev = s@;
            s.append(crate::ids::hex_digit_str_u64(value));
            let ghost i_old = i as int;
            if n - i >= 4 {
                i = i + 4;
            } else {
                i = n;
            }
            proof {
                assert(value == nibble_val(bits@, i_old));
                assert(s@ =~= prev + seq![hex_char(nibble_val(bits@, i_old))]);
                assert(s@ + hex_of_bits(bits@, i_old + 4) =~= hex_of_bits(bits@, 0));
                if i_old + 4 != i {
                    assert(hex_of_bits(bits@, i_old + 4) =~= Seq::<char>::empty());
                    assert(hex_of_bits(bits@, i as int) =~= Seq::<char>::empty());
                }
            }
        }
        proof {
            assert(hex_of_bits(bits@, i as int) =~= Seq::<char>::empty());
            assert(s@ =~= hex_of_bits(bits@, 0));
            lemma_hex_of_bits_len(bits@, 0);
        }
        s
    }

    /// Computes the fingerprint of the frame image a command names.  The
    /// grid settings are validated first; an unreadable or undecodable
    /// image is the distinguished fingerprint failure for that frame.  On
    /// success the fingerprint packs one bit per grid cell, so its length
    /// is fixed by the settings alone.
    pub fn compute_hash(&self, command: ComputeHashCommand) -> (r: DomainResult<HashComputed>)
        ensures
            !spec_hash_params_ok(self.hash_size) ==> r is Err && r->Err_0 is InvalidConfig,
            spec_hash_params_ok(self.hash_size) ==> (r is Err ==> r->Err_0
                == ExtractionError::HashComputationFailed(command.frame_id)),
            r is Ok ==> ({
                let e = r->Ok_0;
                &&& e.frame_id == command.frame_id
                &&& e.algorithm@ == spec_algorithm_name(command.algorithm)
                &&& e.hash@.len() == (if command.algorithm is Perceptual {
                    16int
                } else {
                    (self.hash_size * self.hash_size + 3) / 4
                })
            }),
    {
        if let Err(e) = validate_hash_params(command.algorithm, self.hash_size) {
            return Err(e);
        }
        let frame_id = command.frame_id;
        let opened = open_image(command.frame_path.as_str());
        let img = match opened {
            Some(img) => img,
            None => {
                return Err(ExtractionError::HashComputationFailed(frame_id));
            },
        };
        let gray = to_gray(&img);
        let bits: Vec<u8> = match command.algorithm {
            HashAlgorithm::Average => {
                let small = resize_gray(&gray, self.hash_size, self.hash_size);
                let pixels = gray_raw(&small);
                average_hash_bits(&pixels, self.hash_size)
            },
            HashAlgorithm::Difference => {
                let small = resize_gray(&gray, self.hash_size + 1, self.hash_size);
                let pixels = gray_raw(&small);
                difference_hash_bits(&pixels, self.hash_size)
            },
            HashAlgorithm::Perceptual => {
                let coarse = resize_gray(&gray, 32, 32);
                let tiny = resize_gray(&coarse, 8, 8);
                let pixels = gray_raw(&tiny);
                average_hash_bits(&pixels, 8)
            },
        };
        let hash = self.bits_to_hex(&bits);
        Ok(
            HashComputed {
                frame_id,
                hash,
                algorithm: String::from_str(command.algorithm.name()),
                computation_time_ms: 0,
            },
        )
    }

    /// Similarity of two fingerprints, from zero to one: one minus the
    /// normalized Hamming distance over the packed bits.  Fingerprints of
    /// differing length score zero; two empty fingerprints score one by
    /// convention.
    pub fn compute_similarity(hash1: &str, hash2: &str) -> (r: Similarity)
        ensures
            r.num == crate::similarity::spec_similarity(hash1@, hash2@).0,
            r.den == crate::similarity::spec_similarity(hash1@, hash2@).1,
            r.wf(),
            r.den <= u64::MAX as u128 * 4,
    {
        let n1: usize = hash1.unicode_len();
        let n2: usize = hash2.unicode_len();
        if n1 != n2 {
            return Similarity { num: 0, den: 1 };
        }
        if n1 == 0 {
            return Similarity { num: 1, den: 1 };
        }
        let dist = hamming_distance(hash1, hash2);
        proof {
            lemma_hamming_to_bound(hash1@, hash2@, n1 as int);
        }
        let den: u128 = 4 * (n1 as u128);
        Similarity { num: den - dist, den }
    }

    /// Fingerprint of arbitrary bytes under the process-seeded fallback
    /// hasher, as sixteen hexadecimal digits.
    pub fn compute_ahash(data: &[u8]) -> (r: String)
        ensures
            r@.len() == 16,
    {
        let h = ahash64(data);
        let s = u128_to_hex_fixed(h as u128, 16);
        proof {
            lemma_hex_fixed_len(h as nat, 16);
        }
        s
    }
}

} // verus!
