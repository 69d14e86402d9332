//! From the pattern that the user gave to the regular expression that is
//! matched against commit messages.

use vstd::prelude::*;
use vstd::string::*;

verus! {

/// What is put before a pattern that is to match in the summary only: the
/// start of the message, then any run of characters other than a newline.
/// What follows it in a match then begins in the first line of the message.
pub open spec fn summary_anchor() -> Seq<char> {
    "\\A[^\n]*"@
}

/// The regular expression that is matched against a message: the pattern as
/// it stands, free to match anywhere in the message, or, in summary mode, the
/// pattern behind [`summary_anchor`]. There the pattern stands in a group of
/// its own, so that the anchor holds for the whole of it: for each of its
/// alternatives, where it has several.
pub open spec fn effective_pattern(pattern: Seq<char>, summary: bool) -> Seq<char> {
    if summary {
        summary_anchor() + "(?:"@ + pattern + ")"@
    } else {
        pattern
    }
}

/// The text of the regular expression that is matched against a message.
pub fn effective(pattern: &str, summary: bool) -> (text: String)
    ensures
        text@ == effective_pattern(pattern@, summary),
{
    if summary {
        "\\A[^\n]*".to_owned().concat("(?:").concat(pattern).concat(")")
    } else {
        pattern.to_owned()
    }
}

} // verus!
