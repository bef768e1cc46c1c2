//! The matcher: one compiled pattern, applied to one line at a time.
//!
//! Compilation and the search itself are done by the `regex` crate behind
//! trusted wrappers; everything a caller learns about their results is
//! stated here over the pattern text, the case flag and the line.

use vstd::prelude::*;
use vstd::string::StringSliceAdditionalSpecFns;
use vstd::utf8::encode_utf8;
use vstd::utf8::is_char_boundary;

verus! {

#[verifier::external_type_specification]
#[verifier::external_body]
pub struct ExRegex(regex::Regex);

/// Whether compiling `pattern` under the given case-insensitivity flag
/// succeeds. Valid pattern syntax takes pages to state, so the outcome is
/// only named; it is a function of the pattern text and the flag alone.
pub uninterp spec fn compiles(pattern: Seq<char>, ignore_case: bool) -> bool;

/// The first (leftmost) match of `pattern` in `line`, as byte offsets into
/// the UTF-8 encoding of `line`, or `None` when the pattern matches nowhere.
/// The matching relation takes pages to state, so the result is only named;
/// it is a function of the pattern text, the flag and the line alone.
pub uninterp spec fn found_span(pattern: Seq<char>, ignore_case: bool, line: Seq<char>) -> Option<
    (usize, usize),
>;

/// The error for a pattern that is not a valid regular expression.
#[derive(Clone, Copy, Debug, PartialEq, Eq, Structural)]
pub struct PatternError {}

/// Relies on `regex::RegexBuilder::{new, case_insensitive, build}`
/// (regex 1.13): building succeeds exactly when the pattern is valid regex
/// syntax (within the default size limit), and the outcome depends on the
/// pattern text and the flag alone.
#[verifier::external_body]
fn compile_pattern(pattern: &str, ignore_case: bool) -> (r: Option<regex::Regex>)
    ensures
        r is Some <==> compiles(pattern@, ignore_case),
{
    regex::RegexBuilder::new(pattern).case_insensitive(ignore_case).build().ok()
}

/// A matcher holding one compiled pattern. Case sensitivity is fixed at
/// construction; matching is stateless, so one matcher serves every line of
/// a run.
pub struct LineGrep {
    re: regex::Regex,
    pattern: String,
    ignore_case: bool,
}

impl LineGrep {
    /// The text the matcher's pattern was compiled from.
    pub closed spec fn pattern_spec(self) -> Seq<char> {
        self.pattern@
    }

    /// Whether the matcher's pattern was compiled case-insensitively.
    pub closed spec fn ignore_case_spec(self) -> bool {
        self.ignore_case
    }

    /// Compiles `pattern` into a matcher; fails exactly when the pattern is
    /// not a valid regular expression, and no partially usable matcher
    /// exists in that case.
    pub fn new(pattern: String, ignore_case: bool) -> (r: Result<LineGrep, PatternError>)
        ensures
            r is Ok <==> compiles(pattern@, ignore_case),
            r matches Ok(g) ==> g.pattern_spec() == pattern@ && g.ignore_case_spec()
                == ignore_case,
    {
        match compile_pattern(pattern.as_str(), ignore_case) {
            Some(re) => Ok(LineGrep { re, pattern, ignore_case }),
            None => Err(PatternError {}),
        }
    }

    /// Reports the first match of the pattern in `line`: byte offsets
    /// `(start, end)` with `start <= end <=` the line's byte length, both on
    /// character boundaries, or `None` when the pattern matches nowhere.
    pub fn feed(&mut self, line: &String) -> (r: Option<(usize, usize)>)
        ensures
            *final(self) == *old(self),
            r == found_span(old(self).pattern_spec(), old(self).ignore_case_spec(), line@),
            match r {
                Some((s, e)) => s <= e <= encode_utf8(line@).len() && is_char_boundary(
                    encode_utf8(line@),
                    s as int,
                ) && is_char_boundary(encode_utf8(line@), e as int),
                None => true,
            },
    {
        find_first(&*self, line.as_str())
    }
}

/// Relies on `regex::Regex::find` and `regex::Match::{start, end}`
/// (regex 1.13): the leftmost match is returned as byte offsets into the
/// haystack, with `start() <= end()` no greater than the haystack's byte
/// length, both guaranteed to fall on UTF-8 character boundaries; the result
/// depends on the compiled pattern and the haystack alone. `g.re` is always
/// the compilation of `g.pattern` under `g.ignore_case`: the fields are
/// private, and only `LineGrep::new` builds a `LineGrep`.
#[verifier::external_body]
fn find_first(g: &LineGrep, line: &str) -> (r: Option<(usize, usize)>)
    ensures
        r == found_span(g.pattern_spec(), g.ignore_case_spec(), line@),
        match r {
            Some((s, e)) => s <= e <= line.spec_bytes().len() && is_char_boundary(
                line.spec_bytes(),
                s as int,
            ) && is_char_boundary(line.spec_bytes(), e as int),
            None => true,
        },
{
    g.re.find(line).map(|m| (m.start(), m.end()))
}

} // verus!
