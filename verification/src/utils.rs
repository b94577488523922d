//! Reading the user's answer to a question that is asked before a run goes on.

use vstd::prelude::*;
use vstd::string::StringExecFns;

verus! {

/// `text` without the white space at its two ends, as `str::trim` of the standard
/// library leaves it.
pub uninterp spec fn trimmed(text: Seq<char>) -> Seq<char>;

/// `text` in lower case, as `str::to_lowercase` of the standard library writes it.
pub uninterp spec fn lowercased(text: Seq<char>) -> Seq<char>;

/// `str::trim` of the standard library. Assumed, not proved: what it returns depends on
/// the characters of its argument alone.
pub assume_specification[ str::trim ](text: &str) -> (rest: &str)
    ensures
        rest@ == trimmed(text@),
;

/// `str::to_lowercase` of the standard library. Assumed, not proved: what it returns
/// depends on the characters of its argument alone.
pub assume_specification[ str::to_lowercase ](text: &str) -> (lower: String)
    ensures
        lower@ == lowercased(text@),
;

/// Whether an answer, trimmed and in lower case, says no.
pub open spec fn refuses(answer: Seq<char>) -> bool {
    answer == "no"@ || answer == "n"@
}

/// Tells whether an answer, trimmed and in lower case, says no.
pub fn is_refusal(answer: &String) -> (refused: bool)
    ensures
        refused == refuses(answer@),
{
    let long = String::from_str("no");
    let short = String::from_str("n");
    *answer == long || *answer == short
}

/// Tells whether the line that the user typed lets the run go on: every answer does,
/// but for "no" and "n" in whatever case, with white space around them or without.
pub fn continues(input: &str) -> (go_on: bool)
    ensures
        go_on == !refuses(lowercased(trimmed(input@))),
{
    let answer = input.trim().to_lowercase();
    !is_refusal(&answer)
}

} // verus!
