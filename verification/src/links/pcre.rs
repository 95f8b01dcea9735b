//! The PCRE2 calls that classify links, through the `pcre2` crate's byte
//! interface. Patterns are compiled with no options, so a subject is read as
//! bytes, not as UTF-8.

use vstd::prelude::*;

use pcre2::bytes::Regex;

verus! {

/// `pcre2::bytes::Regex`, a compiled pattern, carried as an opaque value.
#[verifier::external_type_specification]
#[verifier::external_body]
pub struct ExRegex(Regex);

/// The error code `pcre2::bytes::Regex::new` reports for a pattern (which it
/// compiles with no options), or `None` when it succeeds.
pub uninterp spec fn compile_failure_code(pattern: Seq<char>) -> Option<i32>;

/// What `pcre2::bytes::Regex::is_match` yields for a subject, with the regex
/// compiled from the pattern with no options: whether it matches anywhere, or
/// the error code of a failed search (such as an exhausted match limit).
pub uninterp spec fn match_result(pattern: Seq<char>, subject: Seq<u8>) -> Result<bool, i32>;

/// A compiled pattern together with the text it was compiled from.
pub struct CompiledPattern {
    regex: Regex,
    source: Ghost<Seq<char>>,
}

impl View for CompiledPattern {
    type V = Seq<char>;

    closed spec fn view(&self) -> Seq<char> {
        self.source@
    }
}

/// `pcre2::bytes::Regex::new`: compiles a pattern with no options. Claimed:
/// the call fails exactly when `compile_failure_code` names an error code for
/// the pattern, and then reports that code; `compile_failure_code` is named,
/// not stated, because what PCRE2 accepts takes its whole grammar to say.
#[verifier::external_body]
fn regex_new(pattern: &str) -> (r: Result<Regex, i32>)
    ensures
        r is Ok <==> compile_failure_code(pattern@) is None,
        r matches Err(code) ==> compile_failure_code(pattern@) == Some(code),
{
    match Regex::new(pattern) {
        Ok(regex) => Ok(regex),
        Err(error) => Err(error.code()),
    }
}

/// `pcre2::bytes::Regex::is_match`: searches the whole subject from its
/// start. Claimed: the outcome, with a failed search reduced to its error
/// code, is `match_result` of the text the regex was compiled from and the
/// subject. That text is the view of `CompiledPattern`, which only
/// `compile_pattern` builds, recording the pattern it compiled. What matches
/// is named, not stated: it is the whole of PCRE2's matching.
#[verifier::external_body]
pub(crate) fn pattern_matches(compiled: &CompiledPattern, subject: &[u8]) -> (r: Result<bool, i32>)
    ensures
        r == match_result(compiled@, subject@),
{
    match compiled.regex.is_match(subject) {
        Ok(found) => Ok(found),
        Err(error) => Err(error.code()),
    }
}

/// Compiles a pattern with no options, or returns the PCRE2 error number.
pub(crate) fn compile_pattern(pattern: &str) -> (r: Result<CompiledPattern, i32>)
    ensures
        r is Ok <==> compile_failure_code(pattern@) is None,
        r matches Err(code) ==> compile_failure_code(pattern@) == Some(code),
        r matches Ok(compiled) ==> compiled@ == pattern@,
{
    match regex_new(pattern) {
        Ok(regex) => Ok(CompiledPattern { regex, source: Ghost(pattern@) }),
        Err(code) => Err(code),
    }
}

} // verus!
