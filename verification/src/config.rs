//! Configuration of an extraction run, and its validation rules.
//!
//! The sampling interval is carried in whole milliseconds and the
//! similarity threshold as an exact fraction, so that every rule about
//! them can be verified.

use vstd::prelude::*;
use crate::decimal::{dec_digits, u64_to_dec};
use crate::error::{DomainResult, ExtractionError};
use crate::similarity::Threshold;
use crate::text::str_eq;

verus! {

/// Default sampling interval: five seconds, in milliseconds.
pub const DEFAULT_INTERVAL_MS: u64 = 5000;

/// Shortest acceptable sampling interval, in milliseconds.
pub const MIN_INTERVAL_MS: u64 = 100;

/// Longest acceptable sampling interval, in milliseconds.
pub const MAX_INTERVAL_MS: u64 = 60000;

/// Smallest acceptable memory threshold, in megabytes.
pub const MIN_MEMORY_THRESHOLD_MB: u64 = 100;

/// Configuration of one extraction run.
#[derive(Debug, Clone)]
pub struct ExtractionConfig {
    /// The video locator to process.
    pub youtube_url: String,
    /// Sampling interval in milliseconds.
    pub interval_ms: u64,
    /// Similarity at or above which frames share a slide.
    pub threshold: Threshold,
    /// Directory that receives the generated files.
    pub output_dir: String,
    /// Languages for text recognition.
    pub languages: Vec<String>,
    /// Whether timestamps appear in the output.
    pub timestamps: bool,
    /// Memory threshold in megabytes.
    pub memory_threshold_mb: u64,
}

/// The default similarity threshold: eighty-five hundredths.
pub fn default_threshold() -> (r: Threshold)
    ensures
        r == (Threshold { num: 85u64, den: 100u64 }),
        r.wf(),
{
    Threshold { num: 85, den: 100 }
}

/// The default output directory: the current directory.
pub fn default_output_dir() -> (r: String)
    ensures
        r@ == "."@,
{
    String::from_str(".")
}

/// The default recognition languages: English alone.
pub fn default_languages() -> (r: Vec<String>)
    ensures
        r@.len() == 1,
        r@[0]@ == "eng"@,
{
    let mut v: Vec<String> = Vec::new();
    v.push(String::from_str("eng"));
    v
}

/// By default, no timestamps in the output.
pub fn default_timestamps() -> (r: bool)
    ensures
        !r,
{
    false
}

/// The default memory threshold, in megabytes.
pub fn default_memory_threshold() -> (r: u64)
    ensures
        r == 500,
{
    500
}

/// The language codes the recognition stage accepts.
pub fn get_supported_languages() -> (r: Vec<&'static str>)
    ensures
        r@.len() == 16,
        r@[0]@ == "eng"@,
        r@[1]@ == "spa"@,
        r@[2]@ == "fra"@,
        r@[3]@ == "deu"@,
        r@[4]@ == "jpn"@,
        r@[5]@ == "chi_sim"@,
        r@[6]@ == "chi_tra"@,
        r@[7]@ == "kor"@,
        r@[8]@ == "rus"@,
        r@[9]@ == "ara"@,
        r@[10]@ == "hin"@,
        r@[11]@ == "por"@,
        r@[12]@ == "ita"@,
        r@[13]@ == "nld"@,
        r@[14]@ == "pol"@,
        r@[15]@ == "tur"@,
{
    let mut v: Vec<&'static str> = Vec::new();
    v.push("eng");
    v.push("spa");
    v.push("fra");
    v.push("deu");
    v.push("jpn");
    v.push("chi_sim");
    v.push("chi_tra");
    v.push("kor");
    v.push("rus");
    v.push("ara");
    v.push("hin");
    v.push("por");
    v.push("ita");
    v.push("nld");
    v.push("pol");
    v.push("tur");
    v
}

/// Whether a language code is one the recognition stage accepts.
pub open spec fn spec_supported_language(s: Seq<char>) -> bool {
    ||| s == "eng"@
    ||| s == "spa"@
    ||| s == "fra"@
    ||| s == "deu"@
    ||| s == "jpn"@
    ||| s == "chi_sim"@
    ||| s == "chi_tra"@
    ||| s == "kor"@
    ||| s == "rus"@
    ||| s == "ara"@
    ||| s == "hin"@
    ||| s == "por"@
    ||| s == "ita"@
    ||| s == "nld"@
    ||| s == "pol"@
    ||| s == "tur"@
}

/// Whether a language code is one the recognition stage accepts.
pub fn is_supported_language(lang: &str) -> (r: bool)
    ensures
        r == spec_supported_language(lang@),
{
    str_eq(lang, "eng") || str_eq(lang, "spa") || str_eq(lang, "fra") || str_eq(lang, "deu")
        || str_eq(lang, "jpn") || str_eq(lang, "chi_sim") || str_eq(lang, "chi_tra") || str_eq(
        lang,
        "kor",
    ) || str_eq(lang, "rus") || str_eq(lang, "ara") || str_eq(lang, "hin") || str_eq(lang, "por")
        || str_eq(lang, "ita") || str_eq(lang, "nld") || str_eq(lang, "pol") || str_eq(
        lang,
        "tur",
    )
}

/// Whether a configuration obeys every rule: an interval between a tenth
/// of a second and a minute, a genuine threshold fraction in zero to one,
/// at least one recognition language with every code supported, and a
/// memory threshold of at least one hundred megabytes.
pub open spec fn spec_config_ok(c: ExtractionConfig) -> bool {
    &&& MIN_INTERVAL_MS <= c.interval_ms <= MAX_INTERVAL_MS
    &&& c.threshold.wf()
    &&& c.languages@.len() > 0
    &&& forall|i: int|
        0 <= i < c.languages@.len() ==> spec_supported_language(#[trigger] c.languages@[i]@)
    &&& c.memory_threshold_mb >= MIN_MEMORY_THRESHOLD_MB
}

/// Joins one more violated-rule sentence onto an error message.
pub open spec fn append_rule(acc: Seq<char>, frag: Seq<char>) -> Seq<char> {
    if acc.len() == 0 {
        frag
    } else {
        acc + "; "@ + frag
    }
}

/// The sentence naming a bad sampling interval.
pub open spec fn interval_frag(c: ExtractionConfig) -> Seq<char> {
    "Invalid interval: "@ + dec_digits(c.interval_ms as nat)
        + " ms. Must be between 100 and 60000 milliseconds."@
}

/// The sentence naming a bad similarity threshold.
pub open spec fn threshold_frag(c: ExtractionConfig) -> Seq<char> {
    "Invalid threshold: "@ + dec_digits(c.threshold.num as nat) + "/"@ + dec_digits(
        c.threshold.den as nat,
    ) + ". Must be a fraction between 0 and 1 with denominator at most 1000000."@
}

/// The sentence naming an unsupported language code.
pub open spec fn lang_frag(lang: Seq<char>) -> Seq<char> {
    "Unsupported language code: "@ + lang
        + ". Supported languages: eng, spa, fra, deu, jpn, chi_sim, chi_tra, kor, rus, ara, hin, por, ita, nld, pol, tur"@
}

/// The sentence naming a bad memory threshold.
pub open spec fn memory_frag(c: ExtractionConfig) -> Seq<char> {
    "Invalid memory threshold: "@ + dec_digits(c.memory_threshold_mb as nat)
        + " MB. Must be at least 100 MB."@
}

/// Appends one sentence per unsupported language, scanning from `i`.
pub open spec fn lang_rules(acc: Seq<char>, langs: Seq<String>, i: int) -> Seq<char>
    decreases langs.len() - i,
    when 0 <= i
{
    if i >= langs.len() {
        acc
    } else if !spec_supported_language(langs[i]@) {
        lang_rules(append_rule(acc, lang_frag(langs[i]@)), langs, i + 1)
    } else {
        lang_rules(acc, langs, i + 1)
    }
}

/// The rejection message of a configuration: one sentence per violated
/// rule, in rule order, joined with semicolons.
pub open spec fn spec_config_error_message(c: ExtractionConfig) -> Seq<char> {
    let m1 = if !(MIN_INTERVAL_MS <= c.interval_ms <= MAX_INTERVAL_MS) {
        append_rule(Seq::empty(), interval_frag(c))
    } else {
        Seq::empty()
    };
    let m2 = if !c.threshold.wf() {
        append_rule(m1, threshold_frag(c))
    } else {
        m1
    };
    let m3 = if c.languages@.len() == 0 {
        append_rule(m2, "At least one OCR language must be specified."@)
    } else {
        m2
    };
    let m4 = lang_rules(m3, c.languages@, 0);
    if c.memory_threshold_mb < MIN_MEMORY_THRESHOLD_MB {
        append_rule(m4, memory_frag(c))
    } else {
        m4
    }
}

/// Joins one more violated-rule sentence onto an error message.
fn append_rule_to(acc: &mut String, frag: &str)
    ensures
        final(acc)@ == append_rule(old(acc)@, frag@),
{
    if acc.as_str().unicode_len() == 0 {
        acc.append(frag);
    } else {
        acc.append("; ");
        acc.append(frag);
    }
    proof {
        assert(acc@ =~= append_rule(old(acc)@, frag@));
    }
}

impl ExtractionConfig {
    /// A configuration for the given locator with every other parameter at
    /// its default.
    pub fn new(youtube_url: String) -> (r: Self)
        ensures
            r.youtube_url == youtube_url,
            r.interval_ms == DEFAULT_INTERVAL_MS,
            r.threshold == (Threshold { num: 85u64, den: 100u64 }),
            r.output_dir@ == "."@,
            r.languages@.len() == 1 && r.languages@[0]@ == "eng"@,
            !r.timestamps,
            r.memory_threshold_mb == 500,
            spec_config_ok(r),
    {
        ExtractionConfig {
            youtube_url,
            interval_ms: DEFAULT_INTERVAL_MS,
            threshold: default_threshold(),
            output_dir: default_output_dir(),
            languages: default_languages(),
            timestamps: default_timestamps(),
            memory_threshold_mb: default_memory_threshold(),
        }
    }

    /// Checks every configuration rule, and rejects a configuration that
    /// breaks any of them with a message naming each violated rule, in
    /// rule order, joined with semicolons.
    pub fn validate(&self) -> (r: DomainResult<()>)
        ensures
            r is Ok <==> spec_config_ok(*self),
            r is Err ==> r->Err_0 is InvalidConfig && r->Err_0->InvalidConfig_0@
                == spec_config_error_message(*self),
    {
        let mut message = String::new();
        let cond_interval = MIN_INTERVAL_MS <= self.interval_ms && self.interval_ms
            <= MAX_INTERVAL_MS;
        if !cond_interval {
            let mut frag = String::from_str("Invalid interval: ");
            let d = u64_to_dec(self.interval_ms);
            frag.append(d.as_str());
            frag.append(" ms. Must be between 100 and 60000 milliseconds.");
            proof {
                assert(frag@ =~= interval_frag(*self));
            }
            append_rule_to(&mut message, frag.as_str());
        }
        let cond_threshold = 0 < self.threshold.den && self.threshold.den
            <= crate::similarity::THRESHOLD_MAX_DEN && self.threshold.num <= self.threshold.den;
        if !cond_threshold {
            let mut frag = String::from_str("Invalid threshold: ");
            let dn = u64_to_dec(self.threshold.num);
            frag.append(dn.as_str());
            frag.append("/");
            let dd = u64_to_dec(self.threshold.den);
            frag.append(dd.as_str());
            frag.append(". Must be a fraction between 0 and 1 with denominator at most 1000000.");
            proof {
                assert(frag@ =~= threshold_frag(*self));
            }
            append_rule_to(&mut message, frag.as_str());
        }
        let cond_nonempty = self.languages.len() > 0;
        if !cond_nonempty {
            append_rule_to(&mut message, "At least one OCR language must be specified.");
        }
        let ghost before_langs = message@;
        let mut all_langs_ok = true;
        let mut i: usize = 0;
        while i < self.languages.len()
            invariant
                0 <= i <= self.languages@.len(),
                all_langs_ok <==> forall|k: int|
                    0 <= k < i ==> spec_supported_language(#[trigger] self.languages@[k]@),
                lang_rules(before_langs, self.languages@, 0) == lang_rules(
                    message@,
                    self.languages@,
                    i as int,
                ),
            decreases self.languages@.len() - i,
        {
            if !is_supported_language(self.languages[i].as_str()) {
                all_langs_ok = false;
                let mut frag = String::from_str("Unsupported language code: ");
                frag.append(self.languages[i].as_str());
                frag.append(
                    ". Supported languages: eng, spa, fra, deu, jpn, chi_sim, chi_tra, kor, rus, ara, hin, por, ita, nld, pol, tur",
                );
                proof {
                    assert(frag@ =~= lang_frag(self.languages@[i as int]@));
                }
                append_rule_to(&mut message, frag.as_str());
            }
            i = i + 1;
        }
        let cond_memory = self.memory_threshold_mb >= MIN_MEMORY_THRESHOLD_MB;
        if !cond_memory {
            let mut frag = String::from_str("Invalid memory threshold: ");
            let d = u64_to_dec(self.memory_threshold_mb);
            frag.append(d.as_str());
            frag.append(" MB. Must be at least 100 MB.");
            proof {
                assert(frag@ =~= memory_frag(*self));
            }
            append_rule_to(&mut message, frag.as_str());
        }
        let ok = cond_interval && cond_threshold && cond_nonempty && all_langs_ok && cond_memory;
        if ok {
            Ok(())
        } else {
            proof {
                assert(message@ == spec_config_error_message(*self));
            }
            Err(ExtractionError::InvalidConfig(message))
        }
    }

    /// Checks every configuration rule and hands the configuration back
    /// when all pass.
    pub fn validated(self) -> (r: DomainResult<ExtractionConfig>)
        ensures
            r is Ok <==> spec_config_ok(self),
            r is Ok ==> r->Ok_0 == self,
            r is Err ==> r->Err_0 is InvalidConfig,
    {
        match self.validate() {
            Ok(()) => Ok(self),
            Err(e) => Err(e),
        }
    }

    /// A builder with nothing set.
    pub fn builder() -> (r: ConfigBuilder)
        ensures
            r.youtube_url is None,
            r.interval_ms is None,
            r.threshold is None,
            r.output_dir is None,
            r.languages is None,
            r.timestamps is None,
            r.memory_threshold_mb is None,
    {
        ConfigBuilder::new()
    }
}

/// Step-by-step construction of a configuration; unset parameters take
/// their defaults.
#[derive(Debug, Clone)]
pub struct ConfigBuilder {
    pub youtube_url: Option<String>,
    pub interval_ms: Option<u64>,
    pub threshold: Option<Threshold>,
    pub output_dir: Option<String>,
    pub languages: Option<Vec<String>>,
    pub timestamps: Option<bool>,
    pub memory_threshold_mb: Option<u64>,
}

impl ConfigBuilder {
    /// A builder with nothing set.
    pub fn new() -> (r: Self)
        ensures
            r.youtube_url is None,
            r.interval_ms is None,
            r.threshold is None,
            r.output_dir is None,
            r.languages is None,
            r.timestamps is None,
            r.memory_threshold_mb is None,
    {
        ConfigBuilder {
            youtube_url: None,
            interval_ms: None,
            threshold: None,
            output_dir: None,
            languages: None,
            timestamps: None,
            memory_threshold_mb: None,
        }
    }

    /// Sets the video locator.
    pub fn youtube_url(self, url: String) -> (r: Self)
        ensures
            r == (ConfigBuilder { youtube_url: Some(url), ..self }),
    {
        ConfigBuilder { youtube_url: Some(url), ..self }
    }

    /// Sets the sampling interval, in milliseconds.
    pub fn interval_ms(self, interval_ms: u64) -> (r: Self)
        ensures
            r == (ConfigBuilder { interval_ms: Some(interval_ms), ..self }),
    {
        ConfigBuilder { interval_ms: Some(interval_ms), ..self }
    }

    /// Sets the similarity threshold.
    pub fn threshold(self, threshold: Threshold) -> (r: Self)
        ensures
            r == (ConfigBuilder { threshold: Some(threshold), ..self }),
    {
        ConfigBuilder { threshold: Some(threshold), ..self }
    }

    /// Sets the output directory.
    pub fn output_dir(self, dir: String) -> (r: Self)
        ensures
            r == (ConfigBuilder { output_dir: Some(dir), ..self }),
    {
        ConfigBuilder { output_dir: Some(dir), ..self }
    }

    /// Sets the recognition languages.
    pub fn languages(self, languages: Vec<String>) -> (r: Self)
        ensures
            r == (ConfigBuilder { languages: Some(languages), ..self }),
    {
        ConfigBuilder { languages: Some(languages), ..self }
    }

    /// Sets whether timestamps appear in the output.
    pub fn timestamps(self, timestamps: bool) -> (r: Self)
        ensures
            r == (ConfigBuilder { timestamps: Some(timestamps), ..self }),
    {
        ConfigBuilder { timestamps: Some(timestamps), ..self }
    }

    /// Sets the memory threshold, in megabytes.
    pub fn memory_threshold_mb(self, threshold: u64) -> (r: Self)
        ensures
            r == (ConfigBuilder { memory_threshold_mb: Some(threshold), ..self }),
    {
        ConfigBuilder { memory_threshold_mb: Some(threshold), ..self }
    }

    /// Builds and validates the configuration.  A builder without a
    /// locator fails; otherwise unset parameters take their defaults and
    /// every configuration rule is checked.
    pub fn build(self) -> (r: DomainResult<ExtractionConfig>)
        ensures
            self.youtube_url is None ==> r is Err,
            r is Err ==> r->Err_0 is InvalidConfig,
            r is Ok ==> ({
                let c = r->Ok_0;
                &&& spec_config_ok(c)
                &&& self.youtube_url is Some && c.youtube_url == self.youtube_url->0
                &&& c.interval_ms == (if self.interval_ms is Some {
                    self.interval_ms->0
                } else {
                    DEFAULT_INTERVAL_MS
                })
                &&& (self.threshold is Some ==> c.threshold == self.threshold->0)
                &&& (self.threshold is None ==> c.threshold == (Threshold {
                    num: 85u64,
                    den: 100u64,
                }))
                &&& (self.output_dir is Some ==> c.output_dir == self.output_dir->0)
                &&& (self.output_dir is None ==> c.output_dir@ == "."@)
                &&& (self.languages is Some ==> c.languages == self.languages->0)
                &&& (self.languages is None ==> c.languages@.len() == 1 && c.languages@[0]@
                    == "eng"@)
                &&& c.timestamps == (if self.timestamps is Some {
                    self.timestamps->0
                } else {
                    false
                })
                &&& c.memory_threshold_mb == (if self.memory_threshold_mb is Some {
                    self.memory_threshold_mb->0
                } else {
                    500u64
                })
            }),
    {
        let youtube_url = match self.youtube_url {
            Some(url) => url,
            None => {
                return Err(
                    ExtractionError::InvalidConfig(String::from_str("YouTube URL is required")),
                );
            },
        };
        let config = ExtractionConfig {
            youtube_url,
            interval_ms: match self.interval_ms {
                Some(v) => v,
                None => DEFAULT_INTERVAL_MS,
            },
            threshold: match self.threshold {
                Some(t) => t,
                None => default_threshold(),
            },
            output_dir: match self.output_dir {
                Some(d) => d,
                None => default_output_dir(),
            },
            languages: match self.languages {
                Some(l) => l,
                None => default_languages(),
            },
            timestamps: match self.timestamps {
                Some(t) => t,
                None => default_timestamps(),
            },
            memory_threshold_mb: match self.memory_threshold_mb {
                Some(m) => m,
                None => default_memory_threshold(),
            },
        };
        config.validated()
    }
}

} // verus!
