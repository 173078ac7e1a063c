//! Text recognition of preserved slides: the commands, the results, and
//! the confidence rule.
//!
//! Running the recognition tool happens outside this library; recognition
//! confidences are carried in ten-thousandths (a score of `0.85` is
//! stored as `8500`), and the rule deciding when a result is flagged as
//! low-confidence is verified here.

use vstd::prelude::*;
use crate::deps::{first_line, is_digit, lemma_run_end_bounds, run_end, run_val, spec_first_line};
use crate::error::{DomainResult, ExtractionError};
use crate::ids::{Id, Slide};
use crate::text::{find_char, lemma_find_char_in_range, spec_find_char, spec_trim, trim};

verus! {

/// Request to recognize the text of one slide image.
#[derive(Debug, Clone)]
pub struct ExtractTextCommand {
    /// The slide to recognize.
    pub slide_id: Id<Slide>,
    /// Path of the slide image.
    pub image_path: String,
    /// Languages to recognize.
    pub languages: Vec<String>,
    /// Confidence under which a result is flagged, in ten-thousandths.
    pub confidence_threshold: u64,
}

/// Result of recognizing one slide.
#[derive(Debug, Clone)]
pub struct OcrResult {
    /// The slide recognized.
    pub slide_id: Id<Slide>,
    /// The recognized text.
    pub text: String,
    /// Mean word confidence, in ten-thousandths.
    pub confidence: u64,
    /// Languages used.
    pub languages: Vec<String>,
}

/// Event: text was recognized for a slide.
#[derive(Debug, Clone)]
pub struct TextExtracted {
    pub slide_id: Id<Slide>,
    pub text: String,
    /// Mean word confidence, in ten-thousandths.
    pub confidence: u64,
}

/// Event: a recognition result fell below the confidence threshold.  The
/// flag is advisory; the run goes on.
#[derive(Debug, Clone)]
pub struct LowConfidenceDetected {
    pub slide_id: Id<Slide>,
    /// The confidence observed, in ten-thousandths.
    pub confidence: u64,
    /// The threshold it fell short of, in ten-thousandths.
    pub threshold: u64,
}

/// Event: recognition failed for a slide.
#[derive(Debug, Clone)]
pub struct OcrFailed {
    pub slide_id: Id<Slide>,
    pub error: String,
}

/// Accepts a recognition result, given whether the slide image is present
/// on disk: a missing image is a failure; a result below the confidence
/// threshold is reported alongside the text, and never aborts the run.
pub fn handle_extract_text(command: &ExtractTextCommand, image_exists: bool, result: OcrResult)
    -> (r: DomainResult<(TextExtracted, Option<LowConfidenceDetected>)>)
    ensures
        r is Ok <==> image_exists,
        r is Err ==> r->Err_0 is FileSystemError,
        r is Ok ==> ({
            let (success, low) = r->Ok_0;
            &&& success.slide_id == command.slide_id
            &&& success.text == result.text
            &&& success.confidence == result.confidence
            &&& (low is Some <==> result.confidence < command.confidence_threshold)
            &&& (low is Some ==> low->0 == (LowConfidenceDetected {
                slide_id: command.slide_id,
                confidence: result.confidence,
                threshold: command.confidence_threshold,
            }))
        }),
{
    if !image_exists {
        let mut m = String::from_str("Slide image not found: ");
        m.append(command.image_path.as_str());
        return Err(ExtractionError::FileSystemError(m));
    }
    let low_confidence_event: Option<LowConfidenceDetected> = if result.confidence
        < command.confidence_threshold {
        Some(
            LowConfidenceDetected {
                slide_id: command.slide_id,
                confidence: result.confidence,
                threshold: command.confidence_threshold,
            },
        )
    } else {
        None
    };
    let success_event = TextExtracted {
        slide_id: command.slide_id,
        text: result.text,
        confidence: result.confidence,
    };
    Ok((success_event, low_confidence_event))
}

/// How many tab-separated columns a line holds: one more than its tabs.
pub open spec fn field_count(s: Seq<char>) -> int
    decreases s.len(),
    via field_count_decreases
{
    let j = spec_find_char(s, '\t', 0);
    if j == -1 {
        1
    } else {
        1 + field_count(s.subrange(j + 1, s.len() as int))
    }
}

#[via_fn]
proof fn field_count_decreases(s: Seq<char>) {
    if spec_find_char(s, '\t', 0) != -1 {
        lemma_find_char_in_range(s, '\t', 0);
    }
}

/// The tab-separated column with the given zero-based position; empty
/// when there are not that many columns.
pub open spec fn nth_field(s: Seq<char>, n: int) -> Seq<char>
    decreases s.len(),
    via nth_field_decreases
{
    let j = spec_find_char(s, '\t', 0);
    if n <= 0 {
        if j == -1 {
            s
        } else {
            s.subrange(0, j)
        }
    } else if j == -1 {
        Seq::empty()
    } else {
        nth_field(s.subrange(j + 1, s.len() as int), n - 1)
    }
}

#[via_fn]
proof fn nth_field_decreases(s: Seq<char>, n: int) {
    if spec_find_char(s, '\t', 0) != -1 {
        lemma_find_char_in_range(s, '\t', 0);
    }
}

/// Cap on one word's confidence value, in ten-thousandths.
pub const CONF_CAP: u64 = 1000000;

/// Whether a column holds a non-negative decimal confidence: digits, then
/// optionally a point and more digits.
pub open spec fn conf_valid(s: Seq<char>) -> bool {
    let de = run_end(s, 0);
    &&& de > 0
    &&& (de == s.len() || (s[de] == '.' && run_end(s, de + 1) == s.len()))
}

/// The confidence a column holds, in ten-thousandths of full confidence
/// (the column itself is a percentage): the integer part times one
/// hundred plus the first two fraction digits, capped.
pub open spec fn spec_conf(s: Seq<char>) -> int {
    let de = run_end(s, 0);
    let f1 = if de + 1 < s.len() && is_digit(s[de + 1]) {
        (s[de + 1] as u32) - 48
    } else {
        0
    };
    let f2 = if de + 2 < s.len() && is_digit(s[de + 2]) {
        (s[de + 2] as u32) - 48
    } else {
        0
    };
    let value = run_val(s, 0, de) * 100 + f1 * 10 + f2;
    if value > CONF_CAP {
        CONF_CAP as int
    } else {
        value
    }
}

/// What one output row contributes: for a row with at least twelve
/// columns, a valid confidence, and non-blank text, the trimmed text and
/// the confidence; nothing otherwise.
pub open spec fn row_items(line: Seq<char>) -> Seq<(Seq<char>, int)> {
    if field_count(line) >= 12 && conf_valid(nth_field(line, 10)) && spec_trim(
        nth_field(line, 11),
    ).len() > 0 {
        seq![(spec_trim(nth_field(line, 11)), spec_conf(nth_field(line, 10)))]
    } else {
        Seq::empty()
    }
}

/// The words and confidences that the rows of `s` contribute, in order.
pub open spec fn tsv_items(s: Seq<char>) -> Seq<(Seq<char>, int)>
    decreases s.len(),
    via tsv_items_decreases
{
    if s.len() == 0 {
        Seq::empty()
    } else {
        let nl = spec_find_char(s, '\n', 0);
        let rest = if nl == -1 {
            Seq::<char>::empty()
        } else {
            s.subrange(nl + 1, s.len() as int)
        };
        row_items(spec_first_line(s)) + tsv_items(rest)
    }
}

#[via_fn]
proof fn tsv_items_decreases(s: Seq<char>) {
    if s.len() > 0 && spec_find_char(s, '\n', 0) != -1 {
        lemma_find_char_in_range(s, '\n', 0);
    }
}

/// Sum of the contributed confidences.
pub open spec fn sum_confs(items: Seq<(Seq<char>, int)>) -> int
    decreases items.len(),
{
    if items.len() == 0 {
        0
    } else {
        items[0].1 + sum_confs(items.drop_first())
    }
}

/// The contributed words joined with single spaces, from position `k` on.
pub open spec fn join_words(items: Seq<(Seq<char>, int)>, k: int) -> Seq<char>
    decreases items.len() - k,
    when 0 <= k
{
    if k >= items.len() {
        Seq::empty()
    } else {
        (if k > 0 {
            " "@
        } else {
            Seq::<char>::empty()
        }) + items[k].0 + join_words(items, k + 1)
    }
}

/// The data rows of an output: everything after the header line.
pub open spec fn tsv_body(s: Seq<char>) -> Seq<char> {
    let nl = spec_find_char(s, '\n', 0);
    if nl == -1 {
        Seq::empty()
    } else {
        s.subrange(nl + 1, s.len() as int)
    }
}

/// Every contributed confidence lies under the cap.
proof fn lemma_sum_confs_bound(items: Seq<(Seq<char>, int)>)
    requires
        forall|k: int| 0 <= k < items.len() ==> 0 <= (#[trigger] items[k]).1 <= CONF_CAP,
    ensures
        0 <= sum_confs(items) <= items.len() * (CONF_CAP as int),
    decreases items.len(),
{
    if items.len() > 0 {
        assert(items.drop_first().len() == items.len() - 1);
        assert forall|k: int| 0 <= k < items.drop_first().len() implies 0 <= (#[trigger] items.drop_first()[k]).1
            <= CONF_CAP by {
            assert(items.drop_first()[k] == items[k + 1]);
        }
        lemma_sum_confs_bound(items.drop_first());
        assert((items.len() - 1) * (CONF_CAP as int) + CONF_CAP == items.len() * (
        CONF_CAP as int)) by (nonlinear_arith);
    }
}

/// A row's contribution is capped.
proof fn lemma_row_items_capped(line: Seq<char>)
    ensures
        forall|k: int| 0 <= k < row_items(line).len() ==> 0 <= (#[trigger] row_items(line)[k]).1
            <= CONF_CAP,
{
    if row_items(line).len() > 0 {
        let s = nth_field(line, 10);
        lemma_run_end_bounds(s, 0);
        lemma_run_digits(s, 0);
        lemma_run_val_nonneg(s, 0, run_end(s, 0));
    }
}

/// Digit runs have non-negative values.
proof fn lemma_run_val_nonneg(s: Seq<char>, i: int, j: int)
    requires
        forall|k: int| i <= k < j ==> is_digit(#[trigger] s[k]),
    ensures
        run_val(s, i, j) >= 0,
    decreases j - i,
{
    if j > i {
        lemma_run_val_nonneg(s, i, j - 1);
        assert(run_val(s, i, j - 1) * 10 >= 0) by (nonlinear_arith)
            requires
                run_val(s, i, j - 1) >= 0,
        ;
    }
}

/// Every position inside a digit run holds a digit.
proof fn lemma_run_digits(s: Seq<char>, i: int)
    requires
        0 <= i,
    ensures
        forall|k: int| i <= k < run_end(s, i) ==> is_digit(#[trigger] s[k]),
    decreases s.len() - i,
{
    if i < s.len() && is_digit(s[i]) {
        lemma_run_digits(s, i + 1);
    }
}

/// No more rows contribute than the input has characters.
proof fn lemma_tsv_items_len(s: Seq<char>)
    ensures
        tsv_items(s).len() <= s.len(),
    decreases s.len(),
{
    if s.len() > 0 {
        let nl = spec_find_char(s, '\n', 0);
        let rest = if nl == -1 {
            Seq::<char>::empty()
        } else {
            s.subrange(nl + 1, s.len() as int)
        };
        if nl != -1 {
            lemma_find_char_in_range(s, '\n', 0);
        }
        lemma_tsv_items_len(rest);
    }
}

/// Every contribution is capped.
proof fn lemma_tsv_items_capped(s: Seq<char>)
    ensures
        forall|k: int| 0 <= k < tsv_items(s).len() ==> 0 <= (#[trigger] tsv_items(s)[k]).1
            <= CONF_CAP,
    decreases s.len(),
{
    if s.len() > 0 {
        let nl = spec_find_char(s, '\n', 0);
        let rest = if nl == -1 {
            Seq::<char>::empty()
        } else {
            s.subrange(nl + 1, s.len() as int)
        };
        if nl != -1 {
            lemma_find_char_in_range(s, '\n', 0);
        }
        lemma_row_items_capped(spec_first_line(s));
        lemma_tsv_items_capped(rest);
        let row = row_items(spec_first_line(s));
        assert forall|k: int| 0 <= k < tsv_items(s).len() implies 0 <= (#[trigger] tsv_items(
            s,
        )[k]).1 <= CONF_CAP by {
            if k < row.len() {
                assert(tsv_items(s)[k] == row[k]);
            } else {
                assert(tsv_items(s)[k] == tsv_items(rest)[k - row.len()]);
            }
        }
    }
}

/// Runs text recognition output through the confidence rules.  The
/// invocation of the recognition tool itself happens outside this
/// library.
pub struct TesseractEngine;

/// Parses one confidence column: digits, then optionally a point and more
/// digits, capped; anything else (a negative or malformed value) is
/// nothing.
fn parse_conf(s: &str) -> (r: Option<u64>)
    ensures
        r is Some <==> conf_valid(s@),
        r is Some ==> r->0 == spec_conf(s@),
{
    let n: usize = s.unicode_len();
    let mut i: usize = 0;
    let mut val: u64 = 0;
    proof {
        lemma_run_end_bounds(s@, 0);
    }
    while i < n && digit_char_at(s, i)
        invariant
            0 <= i <= n,
            n == s@.len(),
            run_end(s@, 0) == run_end(s@, i as int),
            forall|k: int| 0 <= k < i ==> is_digit(#[trigger] s@[k]),
            val <= CONF_CAP,
            run_val(s@, 0, i as int) <= CONF_CAP ==> val == run_val(s@, 0, i as int),
            run_val(s@, 0, i as int) > CONF_CAP ==> val == CONF_CAP,
        decreases n - i,
    {
        let d: u64 = (s.get_char(i) as u32 as u64) - 48;
        let ghost old_val = run_val(s@, 0, i as int);
        proof {
            assert(run_end(s@, i as int) == run_end(s@, i + 1));
            assert(run_val(s@, 0, i + 1) == old_val * 10 + d);
            lemma_run_val_nonneg(s@, 0, i as int);
            if old_val > CONF_CAP {
                assert(old_val * 10 + d > CONF_CAP) by (nonlinear_arith)
                    requires
                        old_val > CONF_CAP,
                        d >= 0,
                        CONF_CAP > 0,
                ;
            }
        }
        val = val * 10 + d;
        if val > CONF_CAP {
            val = CONF_CAP;
        }
        i = i + 1;
    }
    proof {
        assert(run_end(s@, i as int) == i as int);
        assert(run_end(s@, 0) == i as int);
    }
    if i == 0 {
        return None;
    }
    let de: usize = i;
    let mut f1: u64 = 0;
    let mut f2: u64 = 0;
    if de < n {
        if s.get_char(de) != '.' {
            return None;
        }
        // The fraction must be digits to the end.
        let mut j: usize = de + 1;
        proof {
            lemma_run_end_bounds(s@, de + 1);
        }
        while j < n && digit_char_at(s, j)
            invariant
                de + 1 <= j <= n,
                n == s@.len(),
                run_end(s@, de + 1) == run_end(s@, j as int),
            decreases n - j,
        {
            proof {
                assert(run_end(s@, j as int) == run_end(s@, j + 1));
            }
            j = j + 1;
        }
        proof {
            assert(run_end(s@, j as int) == j as int);
        }
        if j < n {
            return None;
        }
        proof {
            lemma_run_digits(s@, de + 1);
        }
        if n - de >= 2 {
            proof {
                assert(is_digit(s@[de + 1]));
            }
            f1 = (s.get_char(de + 1) as u32 as u64) - 48;
        }
        if n - de >= 3 {
            proof {
                assert(is_digit(s@[de + 2]));
            }
            f2 = (s.get_char(de + 2) as u32 as u64) - 48;
        }
    }
    // The integer part saturates the cap on its own when large; adding
    // the fraction keeps the result capped.
    proof {
        lemma_run_val_nonneg(s@, 0, de as int);
        if run_val(s@, 0, de as int) <= CONF_CAP {
            assert(run_val(s@, 0, de as int) * 100 <= CONF_CAP * 100) by (nonlinear_arith)
                requires
                    0 <= run_val(s@, 0, de as int) <= CONF_CAP,
            ;
        } else {
            assert(run_val(s@, 0, de as int) * 100 > CONF_CAP) by (nonlinear_arith)
                requires
                    run_val(s@, 0, de as int) > CONF_CAP,
                    CONF_CAP > 0,
            ;
        }
    }
    let wide: u64 = if val >= CONF_CAP {
        CONF_CAP
    } else {
        let candidate: u64 = val * 100 + f1 * 10 + f2;
        if candidate > CONF_CAP {
            CONF_CAP
        } else {
            candidate
        }
    };
    Some(wide)
}

/// Whether the character at a position is an ASCII digit.
fn digit_char_at(s: &str, i: usize) -> (r: bool)
    requires
        i < s@.len(),
    ensures
        r == is_digit(s@[i as int]),
{
    let c: u32 = s.get_char(i) as u32;
    48 <= c && c <= 57
}

impl TesseractEngine {
    /// Extracts the recognized words and the mean word confidence from
    /// the recognition tool's tab-separated output.  The header row is
    /// skipped; a row contributes exactly when it has at least twelve
    /// columns, a well-formed non-negative confidence, and non-blank
    /// text.  The words are joined with single spaces; the confidence is
    /// their mean, in ten-thousandths, zero when no row contributed.
    pub fn parse_tsv(tsv_content: &str) -> (r: (String, u64))
        ensures
            r.0@ == join_words(tsv_items(tsv_body(tsv_content@)), 0),
            ({
                let items = tsv_items(tsv_body(tsv_content@));
                r.1 == (if items.len() == 0 {
                    0int
                } else {
                    sum_confs(items) / items.len() as int
                })
            }),
    {
        let n: usize = tsv_content.unicode_len();
        let body: &str = match find_char(tsv_content, '\n') {
            None => {
                proof {
                    assert(tsv_body(tsv_content@) =~= Seq::<char>::empty());
                }
                tsv_content.substring_char(0, 0)
            },
            Some(nl) => {
                proof {
                    lemma_find_char_in_range(tsv_content@, '\n', 0);
                }
                tsv_content.substring_char(nl + 1, n)
            },
        };
        proof {
            assert(body@ =~= tsv_body(tsv_content@));
        }
        let (words, sum, count) = scan_rows(body);
        let ghost items = tsv_items(body@);

        let mut text = String::new();
        let mut k: usize = 0;
        proof {
            assert(text@ + join_words(items, 0) =~= join_words(items, 0));
        }
        while k < words.len()
            invariant
                0 <= k <= words@.len(),
                words@.len() == items.len(),
                forall|j: int| 0 <= j < items.len() ==> (#[trigger] words@[j])@ == items[j].0,
                text@ + join_words(items, k as int) =~= join_words(items, 0),
            decreases words@.len() - k,
        {
            if k > 0 {
                text.append(" ");
            }
            text.append(words[k].as_str());
            proof {
                assert(text@ + join_words(items, k + 1) =~= join_words(items, 0));
            }
            k = k + 1;
        }
        proof {
            assert(join_words(items, items.len() as int) =~= Seq::<char>::empty());
            assert(text@ =~= join_words(items, 0));
        }

        let avg: u64 = if count > 0 {
            proof {
                lemma_tsv_items_capped(body@);
                lemma_sum_confs_bound(items);
                assert(sum_confs(items) / items.len() as int <= CONF_CAP) by (nonlinear_arith)
                    requires
                        0 <= sum_confs(items) <= items.len() * (CONF_CAP as int),
                        items.len() > 0,
                ;
            }
            (sum / (count as u128)) as u64
        } else {
            0
        };
        (text, avg)
    }
}

/// Scans the data rows, collecting each row's contribution.
fn scan_rows(s: &str) -> (r: (Vec<String>, u128, u64))
    ensures
        ({
            let items = tsv_items(s@);
            &&& r.0@.len() == items.len()
            &&& forall|j: int| 0 <= j < items.len() ==> (#[trigger] r.0@[j])@ == items[j].0
            &&& r.1 == sum_confs(items)
            &&& r.2 == items.len()
        }),
    decreases s@.len(),
{
    let n: usize = s.unicode_len();
    if n == 0 {
        proof {
            assert(tsv_items(s@) =~= Seq::<(Seq<char>, int)>::empty());
        }
        return (Vec::new(), 0, 0);
    }
    let line = first_line(s);
    let rest: &str = match find_char(s, '\n') {
        None => s.substring_char(0, 0),
        Some(nl) => {
            proof {
                lemma_find_char_in_range(s@, '\n', 0);
            }
            s.substring_char(nl + 1, n)
        },
    };
    let (words, sum, count) = scan_rows(rest);
    let ghost rest_items = tsv_items(rest@);
    let ghost row = row_items(line@);
    proof {
        if spec_find_char(s@, '\n', 0) == -1 {
            assert(rest@ =~= Seq::<char>::empty());
        } else {
            lemma_find_char_in_range(s@, '\n', 0);
            assert(rest@ =~= s@.subrange(spec_find_char(s@, '\n', 0) + 1, s@.len() as int));
        }
        assert(tsv_items(s@) == row + rest_items);
        lemma_row_items_capped(line@);
        lemma_tsv_items_capped(rest@);
        lemma_sum_confs_bound(rest_items);
        lemma_tsv_items_len(rest@);
        assert(rest_items.len() * (CONF_CAP as int) <= u64::MAX as int * (CONF_CAP as int))
            by (nonlinear_arith)
            requires
                0 <= rest_items.len() <= u64::MAX,
        ;
    }

    // Decide this row's contribution.
    let contributed: Option<(String, u64)> = row_contribution(line.as_str());
    match contributed {
        Some((word, conf)) => {
            let mut out: Vec<String> = Vec::new();
            out.push(word);
            let mut j: usize = 0;
            while j < words.len()
                invariant
                    0 <= j <= words@.len(),
                    out@.len() == j + 1,
                    out@[0]@ == row[0].0,
                    forall|i: int| 0 <= i < j ==> (#[trigger] out@[i + 1])@ == rest_items[i].0,
                    words@.len() == rest_items.len(),
                    forall|i: int| 0 <= i < rest_items.len() ==> (#[trigger] words@[i])@
                        == rest_items[i].0,
                    row.len() == 1,
                decreases words@.len() - j,
            {
                out.push(words[j].clone());
                j = j + 1;
            }
            proof {
                assert(tsv_items(s@) =~= row + rest_items);
                assert(tsv_items(s@).drop_first() =~= rest_items);
                assert forall|i: int| 0 <= i < tsv_items(s@).len() implies (#[trigger] out@[i])@
                    == tsv_items(s@)[i].0 by {
                    if i > 0 {
                        assert(out@[i]@ == rest_items[i - 1].0);
                        assert(tsv_items(s@)[i] == rest_items[i - 1]);
                    }
                }
            }
            (out, sum + conf as u128, count + 1)
        },
        None => {
            proof {
                assert(row.len() == 0);
                assert(tsv_items(s@) =~= rest_items);
            }
            (words, sum, count)
        },
    }
}

/// Decides one row's contribution: its trimmed text and confidence, or
/// nothing.
fn row_contribution(line: &str) -> (r: Option<(String, u64)>)
    ensures
        r is Some <==> row_items(line@).len() == 1,
        r is None <==> row_items(line@).len() == 0,
        r is Some ==> (r->0).0@ == row_items(line@)[0].0 && (r->0).1 == row_items(line@)[0].1,
{
    let fields = count_fields(line);
    if fields < 12 {
        return None;
    }
    let conf_col = extract_field(line, 10);
    let conf = match parse_conf(conf_col.as_str()) {
        Some(conf) => conf,
        None => {
            return None;
        },
    };
    let text_col = extract_field(line, 11);
    let trimmed = trim(text_col.as_str());
    if trimmed.as_str().unicode_len() == 0 {
        return None;
    }
    Some((trimmed, conf))
}

/// Counts the tab-separated columns of a line.
fn count_fields(line: &str) -> (r: usize)
    ensures
        field_count(line@) <= usize::MAX ==> r == field_count(line@),
        field_count(line@) > usize::MAX ==> r == usize::MAX,
    decreases line@.len(),
{
    let n: usize = line.unicode_len();
    match find_char(line, '\t') {
        None => 1,
        Some(j) => {
            proof {
                lemma_find_char_in_range(line@, '\t', 0);
            }
            let rest_count = count_fields(line.substring_char(j + 1, n));
            if rest_count == usize::MAX {
                rest_count
            } else {
                1 + rest_count
            }
        },
    }
}

/// Extracts the tab-separated column with the given zero-based position.
fn extract_field(line: &str, n: usize) -> (r: String)
    ensures
        r@ == nth_field(line@, n as int),
    decreases line@.len(),
{
    let len: usize = line.unicode_len();
    match find_char(line, '\t') {
        None => {
            if n == 0 {
                let whole = String::from_str(line.substring_char(0, len));
                proof {
                    assert(whole@ =~= line@);
                }
                whole
            } else {
                String::new()
            }
        },
        Some(j) => {
            proof {
                lemma_find_char_in_range(line@, '\t', 0);
            }
            if n == 0 {
                String::from_str(line.substring_char(0, j))
            } else {
                extract_field(line.substring_char(j + 1, len), n - 1)
            }
        },
    }
}

} // verus!
