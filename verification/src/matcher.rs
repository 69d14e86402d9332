//! The regular expression engine: the calls into `pcre2` that the search
//! makes.
//!
//! Nothing here is proved. Each function is one call into `pcre2`, and what
//! its contract says is taken on trust from that crate. A failure of `pcre2`
//! is handed on as a [`RegexFailure`], which holds the text that it displays.
//!
//! Expressions are compiled with the default options of `pcre2`. Whether an
//! expression compiles, and whether a compiled expression matches a subject,
//! then depends on the expression and on the subject alone.

use vstd::prelude::*;
use crate::error::RegexFailure;

verus! {

/// A compiled regular expression, as a `pcre2::bytes::Regex` holds it. The
/// matcher belongs to the engine: of what it holds, only the expression that
/// it was compiled from is spoken of here.
#[verifier::external_body]
pub struct Matcher {
    inner: pcre2::bytes::Regex,
}

/// The expression that `matcher` was compiled from.
pub uninterp spec fn matcher_expression(matcher: Matcher) -> Seq<char>;

/// Whether PCRE2, with its default options, takes `pattern` for a regular
/// expression.
pub uninterp spec fn pcre2_accepts(pattern: Seq<char>) -> bool;

/// What PCRE2, with its default options, finds when it looks for a match of
/// `expression` in `subject`: whether there is one, or nothing if the attempt
/// fails.
pub uninterp spec fn pcre2_match(expression: Seq<char>, subject: Seq<u8>) -> Option<bool>;

/// What the engine found, without the text of a failure.
pub open spec fn found(tested: Result<bool, RegexFailure>) -> Option<bool> {
    match tested {
        Ok(matched) => Some(matched),
        Err(_) => None,
    }
}

/// `pcre2::bytes::Regex::new`: compiles `pattern` with the default options.
/// Whether that succeeds depends on the pattern alone, and the matcher made
/// is one of `pattern`.
#[verifier::external_body]
pub(crate) fn compile(pattern: &str) -> (compiled: Result<Matcher, RegexFailure>)
    ensures
        compiled is Ok <==> pcre2_accepts(pattern@),
        compiled matches Ok(matcher) ==> matcher_expression(matcher) == pattern@,
{
    match pcre2::bytes::Regex::new(pattern) {
        Ok(inner) => Ok(Matcher { inner }),
        Err(e) => Err(RegexFailure { text: e.to_string() }),
    }
}

/// `pcre2::bytes::Regex::is_match`: whether the expression of `matcher`
/// matches somewhere in `subject`, or the failure of the attempt.
#[verifier::external_body]
pub(crate) fn is_match(matcher: &Matcher, subject: &[u8]) -> (tested: Result<bool, RegexFailure>)
    ensures
        found(tested) == pcre2_match(matcher_expression(*matcher), subject@),
{
    match matcher.inner.is_match(subject) {
        Ok(matched) => Ok(matched),
        Err(e) => Err(RegexFailure { text: e.to_string() }),
    }
}

} // verus!
