//! Typed identifiers for the entities of the pipeline.
//!
//! An identifier is an opaque 128-bit token tagged with the entity kind it
//! names.  Fresh tokens are drawn from the system's unique-identifier
//! generator; tokens can also be derived deterministically from a string,
//! so that the same video locator always maps to the same identifier.

use vstd::prelude::*;

verus! {

/// An opaque identifier for an entity of kind `T`.
#[derive(Debug, Copy, PartialEq, Eq, Hash, Structural)]
pub struct Id<T> {
    value: u128,
    marker: core::marker::PhantomData<T>,
}

impl<T> Clone for Id<T> {
    fn clone(&self) -> (r: Self)
        ensures
            r == *self,
    {
        Id { value: self.value, marker: core::marker::PhantomData }
    }
}

/// Relies on `uuid::Uuid::new_v4` for a fresh random token; nothing is
/// assumed about the value drawn.
#[verifier::external_body]
fn fresh_token() -> u128 {
    uuid::Uuid::new_v4().as_u128()
}

impl<T> Id<T> {
    /// The raw token value.
    pub closed spec fn spec_value(self) -> u128 {
        self.value
    }

    /// Draws a fresh identifier.
    pub fn new() -> Self {
        Id { value: fresh_token(), marker: core::marker::PhantomData }
    }

    /// Wraps a known token value.
    pub fn from_value(value: u128) -> (r: Self)
        ensures
            r.spec_value() == value,
    {
        Id { value, marker: core::marker::PhantomData }
    }

    /// The token value.
    pub fn as_value(&self) -> (r: u128)
        ensures
            r == self.spec_value(),
    {
        self.value
    }

    /// Derives an identifier deterministically from a string: the same
    /// string always yields the same identifier.
    pub fn from_token(s: &str) -> (r: Self)
        ensures
            r.spec_value() == spec_token_hash(s@),
    {
        Id { value: token_hash(s) as u128, marker: core::marker::PhantomData }
    }

    /// Renders the token as thirty-two hexadecimal digits.
    pub fn to_hex(&self) -> (r: String)
        ensures
            r@ == hex_fixed(self.spec_value() as nat, 32),
            r@.len() == 32,
    {
        let s = u128_to_hex_fixed(self.value, 32);
        proof {
            lemma_hex_fixed_len(self.value as nat, 32);
        }
        s
    }
}

/// A fixed-width rendering has exactly that width.
pub proof fn lemma_hex_fixed_len(n: nat, width: nat)
    ensures
        hex_fixed(n, width).len() == width,
    decreases width,
{
    if width > 0 {
        lemma_hex_fixed_len(n / 16, (width - 1) as nat);
    }
}

/// The token value that a string derives to: a 64-bit
/// Fowler-Noll-Vo-style fold over its characters.
pub open spec fn token_hash_to(s: Seq<char>, n: int) -> u64
    decreases n,
{
    if n <= 0 {
        14695981039346656037u64
    } else {
        mul64(token_hash_to(s, n - 1) ^ (s[n - 1] as u64), 1099511628211u64)
    }
}

/// Wrapping 64-bit product.
pub open spec fn mul64(a: u64, b: u64) -> u64 {
    ((a * b) % 0x10000000000000000) as u64
}

/// The token value that a string derives to.
pub open spec fn spec_token_hash(s: Seq<char>) -> u128 {
    token_hash_to(s, s.len() as int) as u128
}

fn token_hash(s: &str) -> (r: u64)
    ensures
        r as u128 == spec_token_hash(s@),
{
    let n: usize = s.unicode_len();
    let mut i: usize = 0;
    let mut h: u64 = 14695981039346656037u64;
    while i < n
        invariant
            0 <= i <= n,
            n == s@.len(),
            h == token_hash_to(s@, i as int),
        decreases n - i,
    {
        let c = s.get_char(i);
        let x: u64 = h ^ (c as u64);
        h = x.wrapping_mul(1099511628211u64);
        proof {
            assert(h == mul64(x, 1099511628211u64));
        }
        i = i + 1;
    }
    h
}

/// The character for one hexadecimal digit.
pub open spec fn hex_char(d: nat) -> char {
    if d == 0 {
        '0'
    } else if d == 1 {
        '1'
    } else if d == 2 {
        '2'
    } else if d == 3 {
        '3'
    } else if d == 4 {
        '4'
    } else if d == 5 {
        '5'
    } else if d == 6 {
        '6'
    } else if d == 7 {
        '7'
    } else if d == 8 {
        '8'
    } else if d == 9 {
        '9'
    } else if d == 10 {
        'a'
    } else if d == 11 {
        'b'
    } else if d == 12 {
        'c'
    } else if d == 13 {
        'd'
    } else if d == 14 {
        'e'
    } else {
        'f'
    }
}

/// The low `width` hexadecimal digits of `n`, most significant first.
pub open spec fn hex_fixed(n: nat, width: nat) -> Seq<char>
    decreases width,
{
    if width == 0 {
        Seq::empty()
    } else {
        hex_fixed(n / 16, (width - 1) as nat).push(hex_char(n % 16))
    }
}

/// One hexadecimal digit as a string slice.
fn hex_digit_str(d: u128) -> (r: &'static str)
    requires
        d < 16,
    ensures
        r@ =~= seq![hex_char(d as nat)],
{
    proof {
        reveal_strlit("0");
        reveal_strlit("1");
        reveal_strlit("2");
        reveal_strlit("3");
        reveal_strlit("4");
        reveal_strlit("5");
        reveal_strlit("6");
        reveal_strlit("7");
        reveal_strlit("8");
        reveal_strlit("9");
        reveal_strlit("a");
        reveal_strlit("b");
        reveal_strlit("c");
        reveal_strlit("d");
        reveal_strlit("e");
        reveal_strlit("f");
    }
    match d {
        0 => "0",
        1 => "1",
        2 => "2",
        3 => "3",
        4 => "4",
        5 => "5",
        6 => "6",
        7 => "7",
        8 => "8",
        9 => "9",
        10 => "a",
        11 => "b",
        12 => "c",
        13 => "d",
        14 => "e",
        _ => "f",
    }
}

/// One hexadecimal digit of a 64-bit value as a string slice.
pub(crate) fn hex_digit_str_u64(d: u64) -> (r: &'static str)
    requires
        d < 16,
    ensures
        r@ =~= seq![hex_char(d as nat)],
{
    hex_digit_str(d as u128)
}

/// Renders the low `width` hexadecimal digits of `n`, most significant
/// first.
pub fn u128_to_hex_fixed(n: u128, width: u8) -> (r: String)
    ensures
        r@ == hex_fixed(n as nat, width as nat),
    decreases width,
{
    if width == 0 {
        let s = String::new();
        proof {
            assert(s@ =~= hex_fixed(n as nat, 0));
        }
        s
    } else {
        let mut s = u128_to_hex_fixed(n / 16, width - 1);
        s.append(hex_digit_str(n % 16));
        proof {
            assert(s@ =~= hex_fixed(n as nat, width as nat));
        }
        s
    }
}

/// Marker for video entities.
#[derive(Debug, Clone, Copy, PartialEq, Eq, Hash, Structural)]
pub struct YouTubeVideo;

/// Marker for sampled-frame entities.
#[derive(Debug, Clone, Copy, PartialEq, Eq, Hash, Structural)]
pub struct VideoFrame;

/// Marker for preserved-slide entities.
#[derive(Debug, Clone, Copy, PartialEq, Eq, Hash, Structural)]
pub struct Slide;

/// Marker for extraction-session entities.
#[derive(Debug, Clone, Copy, PartialEq, Eq, Hash, Structural)]
pub struct Session;

} // verus!
