//! The text of an action: the date placeholder and the count of characters to delete.

use crate::date::{lemma_date_text_eight_digits, lemma_date_text_min_len, local_today, Date};
use crate::decimal::is_digit;
use vstd::prelude::*;
use vstd::string::StringExecFns;

verus! {

/// The text that stands for the date of the day on which the action is executed.
pub open spec fn date_placeholder() -> Seq<char> {
    "${DATE}"@
}

/// The text that is typed for `content` on the day `today`: the date where `content` is
/// the placeholder, and `content` itself otherwise.
pub open spec fn resolved_content(content: Seq<char>, today: Date) -> Seq<char> {
    if content == date_placeholder() {
        today.text()
    } else {
        content
    }
}

/// How often backspace is pressed before `resolved` is typed: `delnum` where it is not
/// negative, else the length of `resolved` in bytes of UTF-8.
pub open spec fn delete_count_of(delnum: i32, resolved: Seq<char>) -> nat {
    if delnum < 0 {
        vstd::utf8::encode_utf8(resolved).len()
    } else {
        delnum as nat
    }
}

/// Whether `content` is the date placeholder.
pub fn is_date_placeholder(content: &String) -> (is: bool)
    ensures
        is == (content@ == date_placeholder()),
{
    let placeholder = String::from_str("${DATE}");
    *content == placeholder
}

/// Resolves `content` on a given day.
pub fn resolve_content_on(content: &String, today: &Date) -> (resolved: String)
    ensures
        resolved@ == resolved_content(content@, *today),
{
    if is_date_placeholder(content) {
        today.to_text()
    } else {
        content.clone()
    }
}

/// Resolves `content` now: the clock is read where `content` is the placeholder, and
/// only there.
pub fn resolve_content(content: &String) -> (resolved: String)
    ensures
        content@ != date_placeholder() ==> resolved@ == content@,
        exists|today: Date| today.on_calendar() && resolved@ == resolved_content(content@, today),
{
    if is_date_placeholder(content) {
        let today = local_today();
        today.to_text()
    } else {
        let resolved = content.clone();
        let ghost any = Date { year: 2000, month: 1, day: 1 };
        assert(any.on_calendar() && resolved@ == resolved_content(content@, any));
        resolved
    }
}

/// Counts the backspaces of a change.
pub fn delete_count(delnum: i32, resolved: &str) -> (count: usize)
    ensures
        count == delete_count_of(delnum, resolved@),
{
    if delnum < 0 {
        resolved.as_bytes().len()
    } else {
        delnum as usize
    }
}

/// The placeholder is seven characters long, so no date is written like it.
pub proof fn lemma_date_text_is_no_placeholder(date: Date)
    ensures
        date.text() != date_placeholder(),
{
    reveal_strlit("${DATE}");
    lemma_date_text_min_len(date);
}

/// Where the date is put in for the placeholder, on a day of the years 0 to 9999, what
/// is typed is eight characters long and all digits.
pub proof fn lemma_substituted_date_is_eight_digits(today: Date)
    requires
        0 <= today.year <= 9999,
        today.month < 100,
        today.day < 100,
    ensures
        resolved_content(date_placeholder(), today) == today.text(),
        resolved_content(date_placeholder(), today).len() == 8,
        forall|i: int|
            0 <= i < 8 ==> is_digit(#[trigger] resolved_content(date_placeholder(), today)[i]),
{
    lemma_date_text_eight_digits(today);
}

/// Resolving is idempotent: what has been resolved resolves to itself, on whatever day.
pub proof fn lemma_resolve_idempotent(content: Seq<char>, first: Date, second: Date)
    ensures
        resolved_content(resolved_content(content, first), second) == resolved_content(
            content,
            first,
        ),
{
    lemma_date_text_is_no_placeholder(first);
}

/// Text other than the placeholder is typed as it stands.
pub proof fn lemma_resolve_plain(content: Seq<char>, today: Date)
    requires
        content != date_placeholder(),
    ensures
        resolved_content(content, today) == content,
{
}

} // verus!
