//! The pattern of a substring search.

use vstd::prelude::*;
use vstd::string::*;
use crate::model::SearchParams;

verus! {

/// The lowercase form of a text, as the standard library computes it.
pub uninterp spec fn lowercased(text: Seq<char>) -> Seq<char>;

/// `str::to_lowercase`: the lowercase form of the text. It depends on the
/// text alone.
#[verifier::external_body]
fn lowercase(text: &str) -> (out: String)
    ensures
        out@ == lowercased(text@),
{
    text.to_lowercase()
}

/// The text between two wildcards.
pub open spec fn wildcard_text(inner: Seq<char>) -> Seq<char> {
    "%"@ + inner + "%"@
}

/// Wraps an already lowercase text in wildcards.
pub fn wildcard_pattern(inner: &str) -> (pattern: String)
    ensures
        pattern@ == wildcard_text(inner@),
{
    let mut pattern = String::from_str("%");
    pattern.append(inner);
    pattern.append("%");
    pattern
}

/// The `LIKE` pattern that finds `target` anywhere, whatever its case.
pub fn search_pattern(target: &str) -> (pattern: String)
    ensures
        pattern@ == wildcard_text(lowercased(target@)),
{
    let lowered = lowercase(target);
    wildcard_pattern(lowered.as_str())
}

impl SearchParams {
    /// The `LIKE` pattern of this search.
    pub fn pattern(&self) -> (pattern: String)
        ensures
            pattern@ == wildcard_text(lowercased(self.target@)),
    {
        search_pattern(self.target.as_str())
    }
}

} // verus!
