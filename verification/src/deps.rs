//! The external tools the pipeline leans on, and the rules for checking
//! that they are present and recent enough.
//!
//! Probing a tool runs it with a version flag; that invocation happens
//! outside this library.  Everything decided from the probe's output — the
//! version number parsed out of it, the comparison against the required
//! minimum, and the resulting report — is computed here and verified.

use vstd::prelude::*;
use crate::error::{DomainResult, ExtractionError};
use crate::text::{
    find_char, nth_token, segment_after, spec_find, spec_find_char, spec_nth_token, spec_segment,
    spec_take_until, take_until,
};

verus! {

/// An external tool the pipeline requires.
#[derive(Debug, Clone, Copy, PartialEq, Eq, Hash, Structural)]
pub enum Dependency {
    /// The video download tool.
    YtDlp,
    /// The video processing tool.
    FFmpeg,
    /// The text recognition tool.
    Tesseract,
}

impl Dependency {
    /// The name under which the tool is invoked.
    pub fn command_name(&self) -> (r: &'static str)
        ensures
            self is YtDlp ==> r@ == "yt-dlp"@,
            self is FFmpeg ==> r@ == "ffmpeg"@,
            self is Tesseract ==> r@ == "tesseract"@,
    {
        match self {
            Dependency::YtDlp => "yt-dlp",
            Dependency::FFmpeg => "ffmpeg",
            Dependency::Tesseract => "tesseract",
        }
    }

    /// The name under which the tool is reported.
    pub fn display_name(&self) -> (r: &'static str)
        ensures
            r@ == spec_display_name(*self),
    {
        match self {
            Dependency::YtDlp => "yt-dlp",
            Dependency::FFmpeg => "FFmpeg",
            Dependency::Tesseract => "Tesseract OCR",
        }
    }

    /// The oldest acceptable version of the tool.
    pub fn minimum_version(&self) -> (r: Option<&'static str>)
        ensures
            r is Some,
            self is YtDlp ==> r->0@ == "2023.01.01"@,
            self is FFmpeg ==> r->0@ == "4.0"@,
            self is Tesseract ==> r->0@ == "4.0"@,
    {
        match self {
            Dependency::YtDlp => Some("2023.01.01"),
            Dependency::FFmpeg => Some("4.0"),
            Dependency::Tesseract => Some("4.0"),
        }
    }

    /// How to install the tool.
    pub fn installation_instructions(&self) -> (r: &'static str)
        ensures
            r@ == spec_instructions(*self),
            r@.len() > 0,
    {
        let r = match self {
            Dependency::YtDlp => "Install yt-dlp using pip: pip install yt-dlp\nOr download from: https://github.com/yt-dlp/yt-dlp/releases",
            Dependency::FFmpeg => "Install FFmpeg using your package manager:\n- macOS: brew install ffmpeg\n- Ubuntu/Debian: sudo apt install ffmpeg\n- Windows: Download from https://ffmpeg.org/download.html",
            Dependency::Tesseract => "Install Tesseract OCR using your package manager:\n- macOS: brew install tesseract\n- Ubuntu/Debian: sudo apt install tesseract-ocr\n- Windows: Download from https://github.com/UB-Mannheim/tesseract/wiki",
        };
        proof {
            reveal_strlit(
                "Install yt-dlp using pip: pip install yt-dlp\nOr download from: https://github.com/yt-dlp/yt-dlp/releases",
            );
            reveal_strlit(
                "Install FFmpeg using your package manager:\n- macOS: brew install ffmpeg\n- Ubuntu/Debian: sudo apt install ffmpeg\n- Windows: Download from https://ffmpeg.org/download.html",
            );
            reveal_strlit(
                "Install Tesseract OCR using your package manager:\n- macOS: brew install tesseract\n- Ubuntu/Debian: sudo apt install tesseract-ocr\n- Windows: Download from https://github.com/UB-Mannheim/tesseract/wiki",
            );
        }
        r
    }

    /// What to try when the tool misbehaves.
    pub fn troubleshooting_steps(&self) -> (r: Vec<&'static str>)
        ensures
            r@.len() == 4,
            self is YtDlp ==> r@[0]@ == "Ensure yt-dlp is in your system PATH"@ && r@[1]@
                == "Try running 'yt-dlp --version' to verify installation"@ && r@[2]@
                == "Update yt-dlp: pip install --upgrade yt-dlp"@ && r@[3]@
                == "Check if a firewall or proxy is blocking network access"@,
            self is FFmpeg ==> r@[0]@ == "Ensure FFmpeg is in your system PATH"@ && r@[1]@
                == "Try running 'ffmpeg -version' to verify installation"@ && r@[2]@
                == "Reinstall FFmpeg if the version is too old"@ && r@[3]@
                == "Check if required codecs are installed"@,
            self is Tesseract ==> r@[0]@ == "Ensure Tesseract is in your system PATH"@ && r@[1]@
                == "Try running 'tesseract --version' to verify installation"@ && r@[2]@
                == "Install required language data (e.g., tesseract-ocr-eng)"@ && r@[3]@
                == "Check TESSDATA_PREFIX environment variable"@,
    {
        match self {
            Dependency::YtDlp => {
                let mut v: Vec<&'static str> = Vec::new();
                v.push("Ensure yt-dlp is in your system PATH");
                v.push("Try running 'yt-dlp --version' to verify installation");
                v.push("Update yt-dlp: pip install --upgrade yt-dlp");
                v.push("Check if a firewall or proxy is blocking network access");
                v
            },
            Dependency::FFmpeg => {
                let mut v: Vec<&'static str> = Vec::new();
                v.push("Ensure FFmpeg is in your system PATH");
                v.push("Try running 'ffmpeg -version' to verify installation");
                v.push("Reinstall FFmpeg if the version is too old");
                v.push("Check if required codecs are installed");
                v
            },
            Dependency::Tesseract => {
                let mut v: Vec<&'static str> = Vec::new();
                v.push("Ensure Tesseract is in your system PATH");
                v.push("Try running 'tesseract --version' to verify installation");
                v.push("Install required language data (e.g., tesseract-ocr-eng)");
                v.push("Check TESSDATA_PREFIX environment variable");
                v
            },
        }
    }
}

/// The name under which each tool is reported.
pub open spec fn spec_display_name(dependency: Dependency) -> Seq<char> {
    match dependency {
        Dependency::YtDlp => "yt-dlp"@,
        Dependency::FFmpeg => "FFmpeg"@,
        Dependency::Tesseract => "Tesseract OCR"@,
    }
}

/// How each tool is installed.
pub open spec fn spec_instructions(dependency: Dependency) -> Seq<char> {
    match dependency {
        Dependency::YtDlp => "Install yt-dlp using pip: pip install yt-dlp\nOr download from: https://github.com/yt-dlp/yt-dlp/releases"@,
        Dependency::FFmpeg => "Install FFmpeg using your package manager:\n- macOS: brew install ffmpeg\n- Ubuntu/Debian: sudo apt install ffmpeg\n- Windows: Download from https://ffmpeg.org/download.html"@,
        Dependency::Tesseract => "Install Tesseract OCR using your package manager:\n- macOS: brew install tesseract\n- Ubuntu/Debian: sudo apt install tesseract-ocr\n- Windows: Download from https://github.com/UB-Mannheim/tesseract/wiki"@,
    }
}

/// What a tool's report must show for its probe: the parsed version and
/// the version rule's verdict where the probe's output parses; otherwise
/// whatever the failed probe showed.
pub open spec fn spec_report(
    dependency: Dependency,
    probe: CommandProbe,
    r: DependencyCheckResult,
) -> bool {
    &&& r.dependency == dependency
    &&& (probe.version_output is None ==> r.available == probe.command_exists && !r.version_ok
        && r.version is None)
    &&& (probe.version_output is Some && spec_parse_ok(dependency, probe.version_output->0@)
        ==> r.available && r.version is Some && r.version->0@ == spec_parsed_version(
        dependency,
        probe.version_output->0@,
    ) && r.version_ok == (spec_compare_versions(
        spec_parsed_version(dependency, probe.version_output->0@),
        spec_minimum_version(dependency),
    ) >= 0))
    &&& (probe.version_output is Some && !spec_parse_ok(dependency, probe.version_output->0@)
        ==> r.available == probe.command_exists && !r.version_ok && r.version is None)
}

/// Whether a probe shows a tool that is present and recent enough.
pub open spec fn spec_probe_ok(dependency: Dependency, probe: CommandProbe) -> bool {
    &&& probe.version_output is Some
    &&& spec_parse_ok(dependency, probe.version_output->0@)
    &&& spec_compare_versions(
        spec_parsed_version(dependency, probe.version_output->0@),
        spec_minimum_version(dependency),
    ) >= 0
}

/// The status report of one probed tool.
pub open spec fn spec_status_message(r: DependencyCheckResult) -> Seq<char> {
    let version = if r.version is Some {
        r.version->0@
    } else {
        "unknown"@
    };
    if !r.available {
        spec_display_name(r.dependency) + " is not installed or not found in PATH. "@
            + spec_instructions(r.dependency)
    } else if !r.version_ok {
        spec_display_name(r.dependency) + " version "@ + version
            + " is installed, but version "@ + spec_minimum_version(r.dependency)
            + " or higher is required. "@ + spec_instructions(r.dependency)
    } else {
        spec_display_name(r.dependency) + " is available (version "@ + version + ")."@
    }
}

/// Result of probing one tool.
#[derive(Debug, Clone)]
pub struct DependencyCheckResult {
    /// The tool probed.
    pub dependency: Dependency,
    /// Whether the tool responded at all.
    pub available: bool,
    /// The version it reported, where one could be parsed.
    pub version: Option<String>,
    /// Whether the reported version meets the minimum.
    pub version_ok: bool,
    /// The command or path under which it responded.
    pub path: Option<String>,
    /// What went wrong, where the probe failed.
    pub error: Option<String>,
}

impl DependencyCheckResult {
    /// Whether the tool is present and recent enough.
    pub fn is_ok(&self) -> (r: bool)
        ensures
            r == (self.available && self.version_ok),
    {
        self.available && self.version_ok
    }

    /// A report of the tool's status: missing, outdated, or available.
    pub fn status_message(&self) -> (r: String)
        ensures
            r@ == spec_status_message(*self),
    {
        if !self.available {
            let mut m = String::from_str(self.dependency.display_name());
            m.append(" is not installed or not found in PATH. ");
            m.append(self.dependency.installation_instructions());
            proof {
                assert(m@ =~= spec_status_message(*self));
            }
            m
        } else if !self.version_ok {
            let mut m = String::from_str(self.dependency.display_name());
            m.append(" version ");
            match &self.version {
                Some(v) => m.append(v.as_str()),
                None => m.append("unknown"),
            }
            m.append(" is installed, but version ");
            match self.dependency.minimum_version() {
                Some(v) => m.append(v),
                None => m.append("unknown"),
            }
            m.append(" or higher is required. ");
            m.append(self.dependency.installation_instructions());
            proof {
                assert(m@ =~= spec_status_message(*self));
            }
            m
        } else {
            let mut m = String::from_str(self.dependency.display_name());
            m.append(" is available (version ");
            match &self.version {
                Some(v) => m.append(v.as_str()),
                None => m.append("unknown"),
            }
            m.append(").");
            proof {
                assert(m@ =~= spec_status_message(*self));
            }
            m
        }
    }
}

/// One probe of a tool, as performed outside this library: the standard
/// output of a successful version invocation, and whether the command
/// responded to any invocation at all.
#[derive(Debug, Clone)]
pub struct CommandProbe {
    /// Standard output of the version invocation, where one succeeded.
    pub version_output: Option<String>,
    /// Whether the command could be executed at all.
    pub command_exists: bool,
    /// A diagnostic for a failed probe.
    pub error: Option<String>,
}

/// Whether a character is an ASCII digit.
pub open spec fn is_digit(c: char) -> bool {
    48 <= c as u32 <= 57
}

/// End of the digit run starting at `i`.
pub open spec fn run_end(s: Seq<char>, i: int) -> int
    decreases s.len() - i,
    when 0 <= i
{
    if i >= s.len() {
        i
    } else if !is_digit(s[i]) {
        i
    } else {
        run_end(s, i + 1)
    }
}

/// Value of the digits `s[i..j]`.
pub open spec fn run_val(s: Seq<char>, i: int, j: int) -> int
    decreases j - i,
{
    if j <= i {
        0
    } else {
        run_val(s, i, j - 1) * 10 + (s[j - 1] as u32 - 48)
    }
}

/// The scan position stays within the sequence, and moves when it starts
/// on a digit.
pub proof fn lemma_run_end_bounds(s: Seq<char>, i: int)
    requires
        0 <= i <= s.len(),
    ensures
        i <= run_end(s, i) <= s.len(),
        i < s.len() && is_digit(s[i]) ==> run_end(s, i) > i,
    decreases s.len() - i,
{
    if i < s.len() {
        lemma_run_end_bounds(s, i + 1);
    }
}

/// The numeric components of a version string: its maximal digit runs,
/// keeping only those whose value fits the unsigned 32-bit range.
pub open spec fn version_parts(s: Seq<char>, i: int) -> Seq<int>
    decreases s.len() - i,
    when 0 <= i <= s.len()
    via version_parts_decreases
{
    if i >= s.len() {
        Seq::empty()
    } else if !is_digit(s[i]) {
        version_parts(s, i + 1)
    } else {
        let j = run_end(s, i);
        let v = run_val(s, i, j);
        if v < 0x100000000 {
            seq![v] + version_parts(s, j)
        } else {
            version_parts(s, j)
        }
    }
}

#[via_fn]
proof fn version_parts_decreases(s: Seq<char>, i: int) {
    if 0 <= i <= s.len() {
        lemma_run_end_bounds(s, i);
    }
}

/// Ordering of two component sequences, comparing position by position
/// with missing components read as zero: negative, zero, or positive as
/// the first is older, equal, or newer.
pub open spec fn parts_cmp(a: Seq<int>, b: Seq<int>, i: int) -> int
    decreases a.len() + b.len() - i,
    when 0 <= i
{
    if i >= a.len() && i >= b.len() {
        0
    } else {
        let p1 = if i < a.len() {
            a[i]
        } else {
            0
        };
        let p2 = if i < b.len() {
            b[i]
        } else {
            0
        };
        if p1 > p2 {
            1
        } else if p1 < p2 {
            -1int
        } else {
            parts_cmp(a, b, i + 1)
        }
    }
}

/// Ordering of two version strings by their numeric components.
pub open spec fn spec_compare_versions(v1: Seq<char>, v2: Seq<char>) -> int {
    parts_cmp(version_parts(v1, 0), version_parts(v2, 0), 0)
}

/// Extracts the numeric components of a version string.
fn extract_parts(s: &str) -> (r: Vec<u64>)
    ensures
        r@.map_values(|v: u64| v as int) == version_parts(s@, 0),
        r@.len() == version_parts(s@, 0).len(),
        forall|k: int| 0 <= k < r@.len() ==> r@[k] as int == version_parts(s@, 0)[k],
{
    let ghost goal = version_parts(s@, 0);
    let n: usize = s.unicode_len();
    let mut parts: Vec<u64> = Vec::new();
    let mut i: usize = 0;
    while i < n
        invariant
            0 <= i <= n,
            n == s@.len(),
            version_parts(s@, 0) == parts@.map_values(|v: u64| v as int) + version_parts(
                s@,
                i as int,
            ),
        decreases n - i,
    {
        let c: u32 = s.get_char(i) as u32;
        if !(48 <= c && c <= 57) {
            i = i + 1;
        } else {
            // Accumulate the digit run, capping once the value leaves the
            // 32-bit range.
            let ghost start = i as int;
            let mut val: u64 = 0;
            while i < n && digit_at(s, i)
                invariant
                    start <= i <= n,
                    n == s@.len(),
                    run_end(s@, start) == run_end(s@, i as int),
                    val <= 0x100000000u64,
                    run_val(s@, start, i as int) < 0x100000000 ==> val == run_val(
                        s@,
                        start,
                        i as int,
                    ),
                    run_val(s@, start, i as int) >= 0x100000000 ==> val >= 0x100000000,
                decreases n - i,
            {
                let d: u64 = (s.get_char(i) as u32 - 48) as u64;
                let ghost old_val = run_val(s@, start, i as int);
                proof {
                    assert(run_end(s@, i as int) == run_end(s@, i + 1));
                    assert(run_val(s@, start, i + 1) == old_val * 10 + d);
                    if old_val >= 0x100000000 {
                        assert(old_val * 10 + d >= 0x100000000) by (nonlinear_arith)
                            requires
                                old_val >= 0x100000000,
                                d >= 0,
                        ;
                    }
                }
                val = val * 10 + d;
                if val > 0xFFFFFFFF {
                    val = 0x100000000;
                }
                i = i + 1;
            }
            proof {
                assert(run_end(s@, i as int) == i as int);
                assert(run_end(s@, start) == i as int);
            }
            if val <= 0xFFFFFFFF {
                parts.push(val);
                proof {
                    assert(parts@.map_values(|v: u64| v as int) =~= parts@.drop_last().map_values(
                        |v: u64| v as int,
                    ).push(val as int));
                }
            }
            proof {
                assert(version_parts(s@, 0) =~= parts@.map_values(|v: u64| v as int)
                    + version_parts(s@, i as int));
            }
        }
    }
    proof {
        assert forall|k: int| 0 <= k < parts@.len() implies parts@[k] as int == version_parts(
            s@,
            0,
        )[k] by {
            assert(version_parts(s@, 0)[k] == parts@.map_values(|v: u64| v as int)[k]);
        }
    }
    parts
}

/// Whether the character at a position is an ASCII digit.
fn digit_at(s: &str, i: usize) -> (r: bool)
    requires
        i < s@.len(),
    ensures
        r == is_digit(s@[i as int]),
{
    let c: u32 = s.get_char(i) as u32;
    48 <= c && c <= 57
}

/// Checks and reports on the external tools, with optional custom paths.
#[derive(Debug, Clone)]
pub struct DependencyChecker {
    custom_paths: Vec<(Dependency, String)>,
}

impl DependencyChecker {
    /// A path recorded for a tool, the most recent taking precedence.
    pub open spec fn spec_custom_path(paths: Seq<(Dependency, String)>, d: Dependency) -> Option<
        String,
    >
        decreases paths.len(),
    {
        if paths.len() == 0 {
            None
        } else if paths.last().0 == d {
            Some(paths.last().1)
        } else {
            Self::spec_custom_path(paths.drop_last(), d)
        }
    }

    /// The paths recorded so far.
    pub closed spec fn paths(self) -> Seq<(Dependency, String)> {
        self.custom_paths@
    }

    /// A checker that invokes every tool under its plain command name.
    pub fn new() -> (r: Self)
        ensures
            r.paths().len() == 0,
    {
        DependencyChecker { custom_paths: Vec::new() }
    }

    /// Records a custom path for one tool.
    pub fn with_custom_path(self, dependency: Dependency, path: String) -> (r: Self)
        ensures
            r.paths() == self.paths().push((dependency, path)),
    {
        let mut paths = self.custom_paths;
        paths.push((dependency, path));
        DependencyChecker { custom_paths: paths }
    }

    /// The command under which a tool is invoked: its custom path where one
    /// was recorded, else its plain command name.
    pub fn get_command_path(&self, dependency: &Dependency) -> (r: String)
        ensures
            Self::spec_custom_path(self.paths(), *dependency) is Some ==> r == Self::spec_custom_path(
                self.paths(),
                *dependency,
            )->0,
            Self::spec_custom_path(self.paths(), *dependency) is None ==> r@
                == match *dependency {
                Dependency::YtDlp => "yt-dlp"@,
                Dependency::FFmpeg => "ffmpeg"@,
                Dependency::Tesseract => "tesseract"@,
            },
    {
        let mut k: usize = self.custom_paths.len();
        proof {
            assert(self.paths().subrange(0, self.custom_paths@.len() as int) =~= self.paths());
        }
        while k > 0
            invariant
                0 <= k <= self.custom_paths@.len(),
                Self::spec_custom_path(self.paths(), *dependency) == Self::spec_custom_path(
                    self.paths().subrange(0, k as int),
                    *dependency,
                ),
            decreases k,
        {
            let entry = &self.custom_paths[k - 1];
            proof {
                assert(self.paths().subrange(0, k as int).last() == self.paths()[k - 1]);
                assert(self.paths().subrange(0, k as int).drop_last() =~= self.paths().subrange(
                    0,
                    k - 1,
                ));
            }
            if entry.0 == *dependency {
                return entry.1.clone();
            }
            k = k - 1;
        }
        proof {
            assert(self.paths().subrange(0, 0) =~= Seq::<(Dependency, String)>::empty());
        }
        String::from_str(dependency.command_name())
    }

    /// Parses the version a tool printed.  The download and recognition
    /// tools put the version as the second word of the first output line;
    /// the video tool names it after the word `version`.  Output with no
    /// recognizable version is an error.
    pub fn parse_version(&self, dependency: &Dependency, output: &str) -> (r: Result<
        String,
        String,
    >)
        ensures
            !(dependency is FFmpeg) ==> ((r is Ok <==> output@.len() > 0) && (r is Ok ==> (
            if spec_nth_token(spec_first_line(output@), 1).len() > 0 {
                r->Ok_0@ == spec_nth_token(spec_first_line(output@), 1)
            } else {
                r->Ok_0@ == spec_first_line(output@)
            }))),
            dependency is FFmpeg ==> ((r is Ok <==> spec_ffmpeg_version(output@).len() > 0) && (
            r is Ok ==> r->Ok_0@ == spec_ffmpeg_version(output@))),
    {
        match dependency {
            Dependency::FFmpeg => {
                match ffmpeg_version_scan(output) {
                    Some(v) => Ok(v),
                    None => Err(String::from_str("No version output found")),
                }
            },
            _ => {
                if output.unicode_len() == 0 {
                    return Err(String::from_str("No version output found"));
                }
                let line = first_line(output);
                match nth_token(line.as_str(), 1) {
                    Some(tok) => Ok(tok),
                    None => Ok(line),
                }
            },
        }
    }

    /// Whether a reported version meets the tool's minimum.
    pub fn check_version_requirement(&self, dependency: &Dependency, version: &str) -> (r: bool)
        ensures
            r == (spec_compare_versions(
                version@,
                match *dependency {
                    Dependency::YtDlp => "2023.01.01"@,
                    Dependency::FFmpeg => "4.0"@,
                    Dependency::Tesseract => "4.0"@,
                },
            ) >= 0),
    {
        match dependency.minimum_version() {
            Some(min_version) => self.compare_versions(version, min_version) >= 0,
            None => true,
        }
    }

    /// Compares two version strings by their numeric components, read as
    /// maximal digit runs with missing components read as zero: negative,
    /// zero, or positive as the first is older, equal, or newer.
    pub fn compare_versions(&self, v1: &str, v2: &str) -> (r: i32)
        ensures
            r == spec_compare_versions(v1@, v2@),
            -1 <= r <= 1,
    {
        let p1 = extract_parts(v1);
        let p2 = extract_parts(v2);
        let ghost a = version_parts(v1@, 0);
        let ghost b = version_parts(v2@, 0);
        let mut i: usize = 0;
        let max_len: usize = if p1.len() > p2.len() {
            p1.len()
        } else {
            p2.len()
        };
        while i < max_len
            invariant
                0 <= i <= max_len,
                max_len == (if a.len() > b.len() {
                    a.len()
                } else {
                    b.len()
                }),
                a == version_parts(v1@, 0),
                b == version_parts(v2@, 0),
                a.len() == p1@.len(),
                b.len() == p2@.len(),
                forall|k: int| 0 <= k < a.len() ==> #[trigger] a[k] == p1@[k] as int,
                forall|k: int| 0 <= k < b.len() ==> #[trigger] b[k] == p2@[k] as int,
                parts_cmp(a, b, 0) == parts_cmp(a, b, i as int),
            decreases max_len - i,
        {
            let x1: u64 = if i < p1.len() {
                p1[i]
            } else {
                0
            };
            let x2: u64 = if i < p2.len() {
                p2[i]
            } else {
                0
            };
            if x1 > x2 {
                proof {
                    assert(parts_cmp(a, b, i as int) == 1);
                }
                return 1;
            }
            if x1 < x2 {
                proof {
                    assert(parts_cmp(a, b, i as int) == -1);
                }
                return -1;
            }
            i = i + 1;
        }
        0
    }

    /// Builds the report for one tool from its probe: the parsed version
    /// where the probe succeeded and the version rule's verdict on it;
    /// otherwise whatever the failed probe showed.
    pub fn check(&self, dependency: &Dependency, probe: &CommandProbe) -> (r:
        DependencyCheckResult)
        ensures
            spec_report(*dependency, *probe, r),
    {
        let command = self.get_command_path(dependency);
        match &probe.version_output {
            Some(output) => {
                match self.parse_version(dependency, output.as_str()) {
                    Ok(version) => {
                        let version_ok = self.check_version_requirement(
                            dependency,
                            version.as_str(),
                        );
                        DependencyCheckResult {
                            dependency: *dependency,
                            available: true,
                            version: Some(version),
                            version_ok,
                            path: Some(command),
                            error: None,
                        }
                    },
                    Err(e) => {
                        DependencyCheckResult {
                            dependency: *dependency,
                            available: probe.command_exists,
                            version: None,
                            version_ok: false,
                            path: if probe.command_exists {
                                Some(command)
                            } else {
                                None
                            },
                            error: Some(e),
                        }
                    },
                }
            },
            None => {
                DependencyCheckResult {
                    dependency: *dependency,
                    available: probe.command_exists,
                    version: None,
                    version_ok: false,
                    path: if probe.command_exists {
                        Some(command)
                    } else {
                        None
                    },
                    error: match &probe.error {
                        Some(e) => Some(e.clone()),
                        None => None,
                    },
                }
            },
        }
    }

    /// Builds the reports for all three tools from their probes, in a
    /// fixed order: download, processing, recognition.
    pub fn check_all(
        &self,
        ytdlp: &CommandProbe,
        ffmpeg: &CommandProbe,
        tesseract: &CommandProbe,
    ) -> (r: Vec<DependencyCheckResult>)
        ensures
            r@.len() == 3,
            spec_report(Dependency::YtDlp, *ytdlp, r@[0]),
            spec_report(Dependency::FFmpeg, *ffmpeg, r@[1]),
            spec_report(Dependency::Tesseract, *tesseract, r@[2]),
    {
        let mut results: Vec<DependencyCheckResult> = Vec::new();
        results.push(self.check(&Dependency::YtDlp, ytdlp));
        results.push(self.check(&Dependency::FFmpeg, ffmpeg));
        results.push(self.check(&Dependency::Tesseract, tesseract));
        results
    }

    /// Accepts the probes exactly when every tool is present and recent
    /// enough; otherwise fails with the failing tools' status reports
    /// joined.
    pub fn validate_all(
        &self,
        ytdlp: &CommandProbe,
        ffmpeg: &CommandProbe,
        tesseract: &CommandProbe,
    ) -> (r: DomainResult<()>)
        ensures
            r is Ok <==> spec_probe_ok(Dependency::YtDlp, *ytdlp) && spec_probe_ok(
                Dependency::FFmpeg,
                *ffmpeg,
            ) && spec_probe_ok(Dependency::Tesseract, *tesseract),
            r is Err ==> r->Err_0 is ExternalDependencyUnavailable,
    {
        let r1 = self.check(&Dependency::YtDlp, ytdlp);
        let r2 = self.check(&Dependency::FFmpeg, ffmpeg);
        let r3 = self.check(&Dependency::Tesseract, tesseract);
        let mut joined = String::new();
        let mut any_failed = false;
        if !r1.is_ok() {
            let m = r1.status_message();
            joined.append(m.as_str());
            any_failed = true;
        }
        if !r2.is_ok() {
            if any_failed {
                joined.append("\n\n");
            }
            let m = r2.status_message();
            joined.append(m.as_str());
            any_failed = true;
        }
        if !r3.is_ok() {
            if any_failed {
                joined.append("\n\n");
            }
            let m = r3.status_message();
            joined.append(m.as_str());
            any_failed = true;
        }
        if !any_failed {
            return Ok(());
        }
        Err(ExtractionError::ExternalDependencyUnavailable(joined))
    }
}

/// The first line of a tool's output, without a trailing carriage return.
pub open spec fn spec_first_line(s: Seq<char>) -> Seq<char> {
    let l = spec_take_until(s, '\n');
    if l.len() > 0 && l.last() == '\r' {
        l.drop_last()
    } else {
        l
    }
}

/// Extracts the first output line, without a trailing carriage return.
pub(crate) fn first_line(s: &str) -> (r: String)
    ensures
        r@ == spec_first_line(s@),
{
    let line = take_until(s, '\n');
    let n: usize = line.as_str().unicode_len();
    if n > 0 && line.as_str().get_char(n - 1) == '\r' {
        let trimmed = String::from_str(line.as_str().substring_char(0, n - 1));
        proof {
            assert(trimmed@ =~= spec_first_line(s@));
        }
        trimmed
    } else {
        line
    }
}

/// The version the video tool's output names: on the first line that
/// mentions `version `, the word after it.
pub open spec fn spec_ffmpeg_version(s: Seq<char>) -> Seq<char>
    decreases s.len(),
    via spec_ffmpeg_version_decreases
{
    if s.len() == 0 {
        Seq::empty()
    } else {
        let nl = spec_find_char(s, '\n', 0);
        let line = spec_take_until(s, '\n');
        let rest = if nl == -1 {
            Seq::<char>::empty()
        } else {
            s.subrange(nl + 1, s.len() as int)
        };
        if spec_find(line, "version "@, 0) >= 0 && spec_nth_token(
            spec_segment(line, "version "@),
            0,
        ).len() > 0 {
            spec_nth_token(spec_segment(line, "version "@), 0)
        } else {
            spec_ffmpeg_version(rest)
        }
    }
}

#[via_fn]
proof fn spec_ffmpeg_version_decreases(s: Seq<char>) {
    if s.len() > 0 {
        let nl = spec_find_char(s, '\n', 0);
        if nl != -1 {
            crate::text::lemma_find_char_in_range(s, '\n', 0);
        }
    }
}

/// Whether a version can be parsed out of a tool's output.
pub open spec fn spec_parse_ok(dependency: Dependency, output: Seq<char>) -> bool {
    if dependency is FFmpeg {
        spec_ffmpeg_version(output).len() > 0
    } else {
        output.len() > 0
    }
}

/// The version parsed out of a tool's output.
pub open spec fn spec_parsed_version(dependency: Dependency, output: Seq<char>) -> Seq<char> {
    if dependency is FFmpeg {
        spec_ffmpeg_version(output)
    } else if spec_nth_token(spec_first_line(output), 1).len() > 0 {
        spec_nth_token(spec_first_line(output), 1)
    } else {
        spec_first_line(output)
    }
}

/// The oldest acceptable version of each tool.
pub open spec fn spec_minimum_version(dependency: Dependency) -> Seq<char> {
    match dependency {
        Dependency::YtDlp => "2023.01.01"@,
        Dependency::FFmpeg => "4.0"@,
        Dependency::Tesseract => "4.0"@,
    }
}

/// Scans the video tool's output for the word after `version `.
fn ffmpeg_version_scan(s: &str) -> (r: Option<String>)
    ensures
        r is Some ==> r->0@ == spec_ffmpeg_version(s@) && r->0@.len() > 0,
        r is None ==> spec_ffmpeg_version(s@).len() == 0,
    decreases s@.len(),
{
    let n: usize = s.unicode_len();
    if n == 0 {
        return None;
    }
    let line = take_until(s, '\n');
    if let Some(seg) = segment_after(line.as_str(), "version ") {
        if let Some(tok) = nth_token(seg.as_str(), 0) {
            return Some(tok);
        }
    }
    match find_char(s, '\n') {
        Some(nl) => {
            proof {
                crate::text::lemma_find_char_in_range(s@, '\n', 0);
            }
            let rest: &str = s.substring_char(nl + 1, n);
            ffmpeg_version_scan(rest)
        },
        None => {
            proof {
                assert(spec_ffmpeg_version(Seq::<char>::empty()).len() == 0);
            }
            None
        },
    }
}

/// Builds the reports for all three tools under the default checker.
pub fn get_dependency_info(
    ytdlp: &CommandProbe,
    ffmpeg: &CommandProbe,
    tesseract: &CommandProbe,
) -> (r: Vec<DependencyCheckResult>)
    ensures
        r@.len() == 3,
        spec_report(Dependency::YtDlp, *ytdlp, r@[0]),
        spec_report(Dependency::FFmpeg, *ffmpeg, r@[1]),
        spec_report(Dependency::Tesseract, *tesseract, r@[2]),
{
    DependencyChecker::new().check_all(ytdlp, ffmpeg, tesseract)
}

/// Accepts the probes exactly when every tool is present and recent
/// enough.
pub fn check_dependencies(
    ytdlp: &CommandProbe,
    ffmpeg: &CommandProbe,
    tesseract: &CommandProbe,
) -> (r: DomainResult<()>)
    ensures
        r is Ok <==> spec_probe_ok(Dependency::YtDlp, *ytdlp) && spec_probe_ok(
            Dependency::FFmpeg,
            *ffmpeg,
        ) && spec_probe_ok(Dependency::Tesseract, *tesseract),
        r is Err ==> r->Err_0 is ExternalDependencyUnavailable,
{
    DependencyChecker::new().validate_all(ytdlp, ffmpeg, tesseract)
}

} // verus!
