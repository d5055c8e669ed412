//! Fuzzy scoring of a window class against a query.

use fuzzy_matcher::FuzzyMatcher;
use vstd::prelude::*;

verus! {

/// The score that skim's fuzzy matcher, in smart-case mode, gives the string
/// `choice` against `pattern`: `None` where `pattern` is no subsequence of
/// `choice`.
pub uninterp spec fn skim_score(choice: Seq<char>, pattern: Seq<char>) -> Option<i64>;

/// Relies on `fuzzy_matcher::skim::SkimMatcherV2::fuzzy_match` with smart case:
/// the score depends on the two strings alone, and an empty pattern scores 0.
#[verifier::external_body]
fn skim_match(choice: &str, pattern: &str) -> (r: Option<i64>)
    ensures
        r == skim_score(choice@, pattern@),
        pattern@.len() == 0 ==> r == Some(0i64),
{
    fuzzy_matcher::skim::SkimMatcherV2::default().smart_case().fuzzy_match(choice, pattern)
}

/// Scores `class` against `query`.
pub fn score(query: &str, class: &str) -> (r: Option<i64>)
    ensures
        r == skim_score(class@, query@),
        query@.len() == 0 ==> r == Some(0i64),
{
    skim_match(class, query)
}

} // verus!
