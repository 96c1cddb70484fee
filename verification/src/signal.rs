//! The output signal matcher: does a build's captured standard output ask for
//! another pass?

use regex::bytes::Regex;
use vstd::prelude::*;

verus! {

/// A compiled regular expression of the `regex` crate, for byte haystacks.
#[verifier::external_type_specification]
#[verifier::external_body]
pub struct ExRegex(regex::bytes::Regex);

/// The error that the `regex` crate reports for a pattern it does not compile.
#[verifier::external_type_specification]
#[verifier::external_body]
pub struct ExRegexError(regex::Error);

/// The pattern that `Regex::new` compiled a regex from, under the settings
/// that `Regex::new` works with.
pub uninterp spec fn compiled_pattern(re: Regex) -> Seq<char>;

/// Whether `Regex::new` compiles a pattern: whether the pattern is valid and
/// its program stays within the size limit that `Regex::new` works with.
pub uninterp spec fn pattern_compiles(pattern: Seq<char>) -> bool;

/// A character that stands for itself in a pattern: an ASCII letter or digit.
pub open spec fn is_plain_char(c: char) -> bool {
    ('a' <= c && c <= 'z') || ('A' <= c && c <= 'Z') || ('0' <= c && c <= '9')
}

/// A pattern made of plain characters only, which therefore is a literal.
pub open spec fn is_plain_text(text: Seq<char>) -> bool {
    forall|i: int| 0 <= i < text.len() ==> is_plain_char(#[trigger] text[i])
}

/// The bytes of a plain text, one per character.
pub open spec fn plain_bytes(text: Seq<char>) -> Seq<u8> {
    Seq::new(text.len(), |i: int| text[i] as u8)
}

/// `needle` stands in `haystack` at offset `at`.
pub open spec fn occurs_at(needle: Seq<u8>, haystack: Seq<u8>, at: int) -> bool {
    &&& 0 <= at
    &&& at + needle.len() <= haystack.len()
    &&& haystack.subrange(at, at + needle.len()) == needle
}

/// `needle` is a contiguous part of `haystack`.
pub open spec fn occurs_in(needle: Seq<u8>, haystack: Seq<u8>) -> bool {
    exists|at: int| occurs_at(needle, haystack, at)
}

/// Calls `regex::bytes::Regex::new`. Trusted: whether a regex comes back
/// depends on the pattern alone, and a regex that comes back was compiled
/// from the given pattern. Which patterns compile is named, not spelled out.
#[verifier::external_body]
fn compile(pattern: &str) -> (r: Result<Regex, regex::Error>)
    ensures
        r is Ok <==> pattern_compiles(pattern@),
        r matches Ok(re) ==> compiled_pattern(re) == pattern@,
{
    Regex::new(pattern)
}

/// Calls `regex::bytes::Regex::is_match`. Trusted: a pattern made of ASCII
/// letters and digits only holds no meta character, so a regex that
/// `Regex::new` compiled from it matches exactly where the bytes of the
/// pattern occur, and `is_match` looks for a match anywhere in the
/// haystack. Nothing is claimed for other patterns.
#[verifier::external_body]
fn is_match(re: &Regex, haystack: &[u8]) -> (r: bool)
    ensures
        is_plain_text(compiled_pattern(*re)) ==> r == occurs_in(
            plain_bytes(compiled_pattern(*re)),
            haystack@,
        ),
{
    re.is_match(haystack)
}

/// The rerun-request marker, as text.
pub open spec fn marker_text() -> Seq<char> {
    "rerunfilecheck"@
}

/// The rerun-request marker, as the bytes looked for in a build's output.
pub open spec fn marker_bytes() -> Seq<u8> {
    plain_bytes(marker_text())
}

/// The marker occurs somewhere in `output`.
pub open spec fn contains_marker(output: Seq<u8>) -> bool {
    occurs_in(marker_bytes(), output)
}

/// The rerun-request marker.
pub fn marker() -> (m: &'static str)
    ensures
        m@ == marker_text(),
{
    "rerunfilecheck"
}

/// The marker is fourteen plain characters, so as a pattern it is a literal.
pub proof fn marker_is_plain()
    ensures
        marker_text().len() == 14,
        is_plain_text(marker_text()),
{
    reveal_strlit("rerunfilecheck");
}

/// The marker's bytes, spelled out.
pub proof fn marker_bytes_spelled_out()
    ensures
        marker_bytes() =~= seq![
            114u8, 101u8, 114u8, 117u8, 110u8, 102u8, 105u8, 108u8, 101u8, 99u8, 104u8, 101u8,
            99u8, 107u8,
        ],
{
    reveal_strlit("rerunfilecheck");
}

/// An output shorter than the marker does not hold it. In particular, the
/// empty output asks for nothing.
pub proof fn short_output_is_silent(output: Seq<u8>)
    requires
        output.len() < 14,
    ensures
        !contains_marker(output),
{
    marker_is_plain();
}

/// Why a matcher could not be made.
#[derive(Debug, Clone, Copy, PartialEq, Eq, Structural)]
pub enum MatcherError {
    /// The regex engine did not compile the marker pattern.
    Rejected,
}

/// The marker pattern, compiled once and used for every build output.
pub struct SignalMatcher {
    regex: Regex,
}

impl SignalMatcher {
    /// The pattern that the matcher's regex was compiled from.
    pub closed spec fn pattern(self) -> Seq<char> {
        compiled_pattern(self.regex)
    }

    #[verifier::type_invariant]
    spec fn holds_marker(self) -> bool {
        self.pattern() == marker_text()
    }

    /// Makes a matcher of what compiling the marker pattern gave: the regex
    /// is kept, an error of the engine is reported as `Rejected`.
    pub fn from_compiled(compiled: Result<Regex, regex::Error>) -> (r: Result<
        SignalMatcher,
        MatcherError,
    >)
        requires
            compiled matches Ok(re) ==> compiled_pattern(re) == marker_text(),
        ensures
            r is Ok <==> compiled is Ok,
            r matches Ok(matcher) ==> matcher.pattern() == marker_text(),
    {
        match compiled {
            Ok(regex) => Ok(SignalMatcher { regex }),
            Err(_) => Err(MatcherError::Rejected),
        }
    }

    /// Compiles the marker pattern. A matcher comes back if and only if the
    /// regex engine compiles the marker; nothing else can fail.
    pub fn new() -> (r: Result<SignalMatcher, MatcherError>)
        ensures
            r is Ok <==> pattern_compiles(marker_text()),
            r matches Ok(matcher) ==> matcher.pattern() == marker_text(),
    {
        Self::from_compiled(compile(marker()))
    }

    /// Whether `output` asks for another pass of the build.
    pub fn signals_rerun(&self, output: &[u8]) -> (r: bool)
        ensures
            r == contains_marker(output@),
    {
        proof {
            use_type_invariant(self);
            marker_is_plain();
        }
        is_match(&self.regex, output)
    }
}

} // verus!
