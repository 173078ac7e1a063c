//! Verified substring search over strings.

use vstd::prelude::*;

verus! {

/// Whether the needle `n` occurs in `h` at position `i`.
pub open spec fn matches_at(h: Seq<char>, n: Seq<char>, i: int) -> bool {
    0 <= i && i + n.len() <= h.len() && h.subrange(i, i + n.len()) == n
}

/// Position of the first occurrence of `n` in `h` at or after `i`, or minus
/// one if there is none.
pub open spec fn spec_find(h: Seq<char>, n: Seq<char>, i: int) -> int
    decreases h.len() - i,
    when 0 <= i
{
    if i + n.len() > h.len() {
        -1
    } else if matches_at(h, n, i) {
        i
    } else if i >= h.len() {
        -1
    } else {
        spec_find(h, n, i + 1)
    }
}

/// Position of the first occurrence of the character `c` in `h` at or after
/// `i`, or minus one if there is none.
pub open spec fn spec_find_char(h: Seq<char>, c: char, i: int) -> int
    decreases h.len() - i,
    when 0 <= i
{
    if i >= h.len() {
        -1
    } else if h[i] == c {
        i
    } else {
        spec_find_char(h, c, i + 1)
    }
}

/// The prefix of `h` up to the first occurrence of `c`, or all of `h` if
/// `c` does not occur.
pub open spec fn spec_take_until(h: Seq<char>, c: char) -> Seq<char> {
    if spec_find_char(h, c, 0) == -1 {
        h
    } else {
        h.subrange(0, spec_find_char(h, c, 0))
    }
}

/// Whether `n` is a prefix of `h`.
pub open spec fn spec_starts_with(h: Seq<char>, n: Seq<char>) -> bool {
    matches_at(h, n, 0)
}

/// The lower-case form of a character value, folding only the ASCII
/// letters.
pub open spec fn lower_u32(v: u32) -> u32 {
    if 65 <= v && v <= 90 {
        (v + 32) as u32
    } else {
        v
    }
}

/// Whether `n` occurs in `h` at position `i` up to ASCII case.
pub open spec fn ci_matches_at(h: Seq<char>, n: Seq<char>, i: int) -> bool {
    &&& 0 <= i
    &&& i + n.len() <= h.len()
    &&& forall|j: int|
        0 <= j < n.len() ==> lower_u32(#[trigger] (h[i + j] as u32)) == lower_u32(n[j] as u32)
}

/// Whether `n` occurs anywhere in `h` up to ASCII case.
pub open spec fn spec_contains_ci(h: Seq<char>, n: Seq<char>) -> bool {
    exists|i: int| ci_matches_at(h, n, i)
}

/// The first occurrence found is a match, and it is bounded by the
/// haystack.
pub proof fn lemma_find_char_in_range(h: Seq<char>, c: char, i: int)
    requires
        0 <= i,
        spec_find_char(h, c, i) != -1,
    ensures
        i <= spec_find_char(h, c, i) < h.len(),
        h[spec_find_char(h, c, i)] == c,
    decreases h.len() - i,
{
    if i < h.len() && h[i] != c {
        lemma_find_char_in_range(h, c, i + 1);
    }
}

/// Whether a character counts as token-separating blank space.
pub open spec fn is_blank(c: char) -> bool {
    c == ' ' || c == '\t' || c == '\r'
}

/// First position at or after `i` holding a non-blank character.
pub open spec fn tok_start(s: Seq<char>, i: int) -> int
    decreases s.len() - i,
    when 0 <= i
{
    if i >= s.len() {
        i
    } else if is_blank(s[i]) {
        tok_start(s, i + 1)
    } else {
        i
    }
}

/// First position at or after `i` holding a blank character, or the end.
pub open spec fn tok_end(s: Seq<char>, i: int) -> int
    decreases s.len() - i,
    when 0 <= i
{
    if i >= s.len() {
        i
    } else if is_blank(s[i]) {
        i
    } else {
        tok_end(s, i + 1)
    }
}

/// The scan positions stay within the sequence.
pub proof fn lemma_tok_bounds(s: Seq<char>, i: int)
    requires
        0 <= i <= s.len(),
    ensures
        i <= tok_start(s, i) <= s.len(),
        i <= tok_end(s, i) <= s.len(),
    decreases s.len() - i,
{
    if i < s.len() {
        lemma_tok_bounds(s, i + 1);
    }
}

/// The blank-separated token with the given zero-based position, scanning
/// from `i`; empty when there are not that many tokens.
pub open spec fn nth_token_from(s: Seq<char>, i: int, n: int) -> Seq<char>
    decreases s.len() - i, n + 1,
    when 0 <= i <= s.len()
    via nth_token_from_decreases
{
    let st = tok_start(s, i);
    if st >= s.len() {
        Seq::empty()
    } else {
        let en = tok_end(s, st);
        if n <= 0 {
            s.subrange(st, en)
        } else {
            nth_token_from(s, en, n - 1)
        }
    }
}

#[via_fn]
proof fn nth_token_from_decreases(s: Seq<char>, i: int, n: int) {
    lemma_tok_bounds(s, i);
    let st = tok_start(s, i);
    if st < s.len() {
        lemma_tok_bounds(s, st + 1);
    }
}

/// The blank-separated token with the given zero-based position.
pub open spec fn spec_nth_token(s: Seq<char>, n: int) -> Seq<char> {
    nth_token_from(s, 0, n)
}

/// Whether the character at a position is blank.
fn blank_at(s: &str, i: usize) -> (r: bool)
    requires
        i < s@.len(),
    ensures
        r == is_blank(s@[i as int]),
{
    let c = s.get_char(i);
    c == ' ' || c == '\t' || c == '\r'
}

/// Extracts the blank-separated token with the given zero-based position.
pub fn nth_token(s: &str, n: usize) -> (r: Option<String>)
    ensures
        r is Some ==> r->0@ == spec_nth_token(s@, n as int) && r->0@.len() > 0,
        r is None ==> spec_nth_token(s@, n as int).len() == 0,
{
    let len: usize = s.unicode_len();
    let mut i: usize = 0;
    let mut remaining: usize = n;
    loop
        invariant
            0 <= i <= len,
            len == s@.len(),
            nth_token_from(s@, i as int, remaining as int) == spec_nth_token(s@, n as int),
        decreases len - i, remaining,
    {
        let ghost i_head = i as int;
        // Skip blanks to the start of the next token.
        while i < len && blank_at(s, i)
            invariant
                i_head <= i,
                0 <= i <= len,
                len == s@.len(),
                nth_token_from(s@, i as int, remaining as int) == spec_nth_token(
                    s@,
                    n as int,
                ),
            decreases len - i,
        {
            proof {
                assert(tok_start(s@, i as int) == tok_start(s@, i + 1));
            }
            i = i + 1;
        }
        if i >= len {
            proof {
                assert(tok_start(s@, i as int) == i as int);
            }
            return None;
        }
        proof {
            assert(tok_start(s@, i as int) == i as int);
        }
        let ghost entry = i as int;
        let ghost entry_rem = remaining as int;
        // Find the end of this token.
        let start: usize = i;
        while i < len && !blank_at(s, i)
            invariant
                i_head <= i,
                start <= i <= len,
                len == s@.len(),
                tok_end(s@, start as int) == tok_end(s@, i as int),
            decreases len - i,
        {
            proof {
                assert(tok_end(s@, i as int) == tok_end(s@, i + 1));
            }
            i = i + 1;
        }
        proof {
            assert(tok_end(s@, i as int) == i as int);
            assert(tok_end(s@, start as int) == i as int);
        }
        if remaining == 0 {
            let tok = String::from_str(s.substring_char(start, i));
            proof {
                assert(nth_token_from(s@, entry, 0) == s@.subrange(entry, i as int));
            }
            return Some(tok);
        }
        remaining = remaining - 1;
        proof {
            assert(nth_token_from(s@, entry, entry_rem) == nth_token_from(
                s@,
                i as int,
                entry_rem - 1,
            ));
        }
    }
}

/// The text between the first occurrence of `n` in `h` and the next
/// occurrence of `n`, or to the end of `h` if `n` occurs only once.
pub open spec fn spec_segment(h: Seq<char>, n: Seq<char>) -> Seq<char>
    recommends
        spec_find(h, n, 0) >= 0,
{
    let i = spec_find(h, n, 0);
    let rest = h.subrange(i + n.len(), h.len() as int);
    let j = spec_find(rest, n, 0);
    if j == -1 {
        rest
    } else {
        rest.subrange(0, j)
    }
}

/// The text between the first and second occurrences of the marker, when
/// the marker occurs at all.
pub fn segment_after(h: &str, n: &str) -> (r: Option<String>)
    ensures
        r is Some <==> spec_find(h@, n@, 0) >= 0,
        r is Some ==> r->0@ == spec_segment(h@, n@),
{
    let hl: usize = h.unicode_len();
    let nl: usize = n.unicode_len();
    match find_sub(h, n) {
        None => None,
        Some(i) => {
            let rest: &str = h.substring_char(i + nl, hl);
            match find_sub(rest, n) {
                None => Some(String::from_str(rest)),
                Some(j) => Some(String::from_str(rest.substring_char(0, j))),
            }
        },
    }
}

/// Whether a character is whitespace for trimming purposes.
pub open spec fn is_ws(c: char) -> bool {
    c == ' ' || c == '\t' || c == '\r' || c == '\n'
}

/// First position at or after `i` holding a non-whitespace character.
pub open spec fn ws_start(s: Seq<char>, i: int) -> int
    decreases s.len() - i,
    when 0 <= i
{
    if i >= s.len() {
        i
    } else if is_ws(s[i]) {
        ws_start(s, i + 1)
    } else {
        i
    }
}

/// One past the last non-whitespace character at a position under `i`,
/// or zero when all of them are blank.
pub open spec fn ws_end_from(s: Seq<char>, i: int) -> int
    decreases i,
    when i <= s.len()
{
    if i <= 0 {
        0
    } else if is_ws(s[i - 1]) {
        ws_end_from(s, i - 1)
    } else {
        i
    }
}

/// The input without leading and trailing whitespace.
pub open spec fn spec_trim(s: Seq<char>) -> Seq<char> {
    if ws_start(s, 0) >= s.len() {
        Seq::empty()
    } else {
        s.subrange(ws_start(s, 0), ws_end_from(s, s.len() as int))
    }
}

/// Whether the character at a position is whitespace.
fn ws_at(s: &str, i: usize) -> (r: bool)
    requires
        i < s@.len(),
    ensures
        r == is_ws(s@[i as int]),
{
    let c = s.get_char(i);
    c == ' ' || c == '\t' || c == '\r' || c == '\n'
}

/// Strips leading and trailing whitespace.
pub fn trim(s: &str) -> (r: String)
    ensures
        r@ == spec_trim(s@),
{
    let n: usize = s.unicode_len();
    let mut start: usize = 0;
    while start < n && ws_at(s, start)
        invariant
            0 <= start <= n,
            n == s@.len(),
            ws_start(s@, 0) == ws_start(s@, start as int),
        decreases n - start,
    {
        proof {
            assert(ws_start(s@, start as int) == ws_start(s@, start + 1));
        }
        start = start + 1;
    }
    if start >= n {
        proof {
            assert(ws_start(s@, start as int) == start as int);
        }
        return String::new();
    }
    proof {
        assert(ws_start(s@, start as int) == start as int);
    }
    let mut end: usize = n;
    while end > start && ws_at(s, end - 1)
        invariant
            start < n,
            start < end <= n,
            n == s@.len(),
            !is_ws(s@[start as int]),
            ws_end_from(s@, n as int) == ws_end_from(s@, end as int),
        decreases end,
    {
        proof {
            assert(ws_end_from(s@, end as int) == ws_end_from(s@, end - 1));
        }
        end = end - 1;
    }
    proof {
        assert(ws_end_from(s@, end as int) == end as int);
    }
    String::from_str(s.substring_char(start, end))
}

/// Position of the last occurrence of the character, or minus one.
pub open spec fn spec_rfind_char(h: Seq<char>, c: char) -> int
    decreases h.len(),
{
    if h.len() == 0 {
        -1
    } else if h.last() == c {
        h.len() - 1
    } else {
        spec_rfind_char(h.drop_last(), c)
    }
}

/// Position of the last occurrence of the character, scanning from the
/// back.
pub fn rfind_char(h: &str, c: char) -> (r: Option<usize>)
    ensures
        r is Some ==> r->0 == spec_rfind_char(h@, c) && r->0 < h@.len(),
        r is None ==> spec_rfind_char(h@, c) == -1,
{
    let n: usize = h.unicode_len();
    let mut i: usize = n;
    proof {
        assert(h@.subrange(0, n as int) =~= h@);
    }
    while i > 0
        invariant
            0 <= i <= n,
            n == h@.len(),
            spec_rfind_char(h@, c) == spec_rfind_char(h@.subrange(0, i as int), c),
        decreases i,
    {
        proof {
            assert(h@.subrange(0, i as int).last() == h@[i - 1]);
            assert(h@.subrange(0, i as int).drop_last() =~= h@.subrange(0, i - 1));
        }
        if h.get_char(i - 1) == c {
            return Some(i - 1);
        }
        i = i - 1;
    }
    proof {
        assert(h@.subrange(0, 0) =~= Seq::<char>::empty());
    }
    None
}

/// Whether two strings hold the same characters.
pub fn str_eq(a: &str, b: &str) -> (r: bool)
    ensures
        r == (a@ == b@),
{
    let al: usize = a.unicode_len();
    let bl: usize = b.unicode_len();
    if al != bl {
        return false;
    }
    let same = match_at(a, b, 0);
    proof {
        assert(a@.subrange(0, al as int) =~= a@);
    }
    same
}

/// Whether the needle occurs at the given position.
fn match_at(h: &str, n: &str, i: usize) -> (r: bool)
    requires
        i + n@.len() <= h@.len(),
    ensures
        r == matches_at(h@, n@, i as int),
{
    let hl: usize = h.unicode_len();
    let nl: usize = n.unicode_len();
    let mut j: usize = 0;
    while j < nl
        invariant
            0 <= j <= nl,
            nl == n@.len(),
            hl == h@.len(),
            i + nl <= hl,
            forall|k: int| 0 <= k < j ==> h@[i + k] == n@[k],
        decreases nl - j,
    {
        if h.get_char(i + j) != n.get_char(j) {
            proof {
                assert(h@.subrange(i as int, i + nl) != n@) by {
                    if h@.subrange(i as int, i + nl) == n@ {
                        assert(h@.subrange(i as int, i + nl)[j as int] == h@[i + j]);
                    }
                }
            }
            return false;
        }
        j = j + 1;
    }
    proof {
        assert(h@.subrange(i as int, i + nl) =~= n@);
    }
    true
}

/// Position of the first occurrence of the needle, scanning from the
/// front.
pub fn find_sub(h: &str, n: &str) -> (r: Option<usize>)
    ensures
        r is Some ==> r->0 == spec_find(h@, n@, 0) && matches_at(h@, n@, r->0 as int),
        r is None ==> spec_find(h@, n@, 0) == -1,
{
    let hl: usize = h.unicode_len();
    let nl: usize = n.unicode_len();
    if nl > hl {
        return None;
    }
    if nl == 0 {
        proof {
            assert(h@.subrange(0, 0) =~= n@);
        }
        return Some(0);
    }
    let mut i: usize = 0;
    while i <= hl - nl
        invariant
            0 <= i,
            0 < nl <= hl,
            i <= hl - nl + 1,
            hl == h@.len(),
            nl == n@.len(),
            spec_find(h@, n@, 0) == spec_find(h@, n@, i as int),
        decreases hl - i,
    {
        if match_at(h, n, i) {
            return Some(i);
        }
        i = i + 1;
    }
    None
}

/// Position of the first occurrence of the character, scanning from the
/// front.
pub fn find_char(h: &str, c: char) -> (r: Option<usize>)
    ensures
        r is Some ==> r->0 == spec_find_char(h@, c, 0) && r->0 < h@.len(),
        r is None ==> spec_find_char(h@, c, 0) == -1,
{
    let hl: usize = h.unicode_len();
    let mut i: usize = 0;
    while i < hl
        invariant
            0 <= i <= hl,
            hl == h@.len(),
            spec_find_char(h@, c, 0) == spec_find_char(h@, c, i as int),
        decreases hl - i,
    {
        if h.get_char(i) == c {
            return Some(i);
        }
        i = i + 1;
    }
    None
}

/// The prefix of `h` up to the first occurrence of `c`, or all of `h`.
pub fn take_until(h: &str, c: char) -> (r: String)
    ensures
        r@ == spec_take_until(h@, c),
{
    let hl: usize = h.unicode_len();
    match find_char(h, c) {
        Some(i) => String::from_str(h.substring_char(0, i)),
        None => {
            let whole = String::from_str(h.substring_char(0, hl));
            proof {
                assert(whole@ =~= h@);
            }
            whole
        },
    }
}

/// Whether `n` is a prefix of `h`.
pub fn starts_with(h: &str, n: &str) -> (r: bool)
    ensures
        r == spec_starts_with(h@, n@),
{
    let hl: usize = h.unicode_len();
    let nl: usize = n.unicode_len();
    if nl > hl {
        return false;
    }
    match_at(h, n, 0)
}

/// Whether the needle occurs at the given position up to ASCII case.
fn ci_match_at(h: &str, n: &str, i: usize) -> (r: bool)
    requires
        i + n@.len() <= h@.len(),
    ensures
        r == ci_matches_at(h@, n@, i as int),
{
    let hl: usize = h.unicode_len();
    let nl: usize = n.unicode_len();
    let mut j: usize = 0;
    while j < nl
        invariant
            0 <= j <= nl,
            nl == n@.len(),
            hl == h@.len(),
            i + nl <= hl,
            forall|k: int|
                0 <= k < j ==> lower_u32(#[trigger] (h@[i + k] as u32)) == lower_u32(
                    n@[k] as u32,
                ),
        decreases nl - j,
    {
        let hc: u32 = h.get_char(i + j) as u32;
        let nc: u32 = n.get_char(j) as u32;
        let hf: u32 = if 65 <= hc && hc <= 90 {
            hc + 32
        } else {
            hc
        };
        let nf: u32 = if 65 <= nc && nc <= 90 {
            nc + 32
        } else {
            nc
        };
        if hf != nf {
            return false;
        }
        j = j + 1;
    }
    true
}

/// Whether the needle occurs anywhere in `h`, ignoring ASCII case.
pub fn contains_ci(h: &str, n: &str) -> (r: bool)
    ensures
        r == spec_contains_ci(h@, n@),
{
    let hl: usize = h.unicode_len();
    let nl: usize = n.unicode_len();
    if nl > hl {
        proof {
            assert(forall|i: int| !ci_matches_at(h@, n@, i));
        }
        return false;
    }
    if nl == 0 {
        proof {
            assert(ci_matches_at(h@, n@, 0));
        }
        return true;
    }
    let mut i: usize = 0;
    while i <= hl - nl
        invariant
            0 <= i,
            0 < nl <= hl,
            i <= hl - nl + 1,
            hl == h@.len(),
            nl == n@.len(),
            forall|k: int| 0 <= k < i ==> !ci_matches_at(h@, n@, k),
        decreases hl - i,
    {
        if ci_match_at(h, n, i) {
            return true;
        }
        i = i + 1;
    }
    proof {
        assert forall|k: int| !ci_matches_at(h@, n@, k) by {
            if k >= i {
                assert(k + n@.len() > h@.len());
            }
        }
    }
    false
}

} // verus!
