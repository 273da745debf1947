//! The few string operations of the standard library that the crate relies on.

use vstd::prelude::*;

verus! {

/// A match of `pattern` starts at place `at` of `text`.
pub open spec fn starts_at(text: Seq<char>, pattern: Seq<char>, at: int) -> bool {
    0 <= at && at + pattern.len() <= text.len() && text.subrange(at, at + pattern.len())
        == pattern
}

/// The text in which every match of `pattern` has given way to `with`. The
/// matches are taken from left to right and do not overlap: where two would
/// overlap, the one that starts first counts. The pattern is not empty.
pub open spec fn replaced(text: Seq<char>, pattern: Seq<char>, with: Seq<char>) -> Seq<char>
    decreases text.len(),
{
    if pattern.len() == 0 || text.len() < pattern.len() {
        text
    } else if starts_at(text, pattern, 0) {
        with + replaced(text.skip(pattern.len() as int), pattern, with)
    } else {
        seq![text[0]] + replaced(text.skip(1), pattern, with)
    }
}

/// The lowercase equivalent of `text` as `str::to_lowercase` defines it, by the
/// Unicode rules that the standard library carries.
pub uninterp spec fn lowercased(text: Seq<char>) -> Seq<char>;

/// Calls `str::replace` with a pattern that is not empty. Trusted: every
/// match of the pattern, taken from left to right without overlap, is
/// replaced, and the rest of the text is kept.
#[verifier::external_body]
pub(crate) fn replace_all(text: &str, pattern: &str, with: &str) -> (out: String)
    requires
        pattern@.len() > 0,
    ensures
        out@ == replaced(text@, pattern@, with@),
{
    text.replace(pattern, with)
}

/// Calls `str::to_lowercase`. Trusted: the result depends on the text alone.
#[verifier::external_body]
pub(crate) fn to_lowercase(text: &str) -> (out: String)
    ensures
        out@ == lowercased(text@),
{
    text.to_lowercase()
}

/// No match starts where one character differs from the pattern's, or the
/// text ends before it.
pub proof fn lemma_mismatch(text: Seq<char>, pattern: Seq<char>, at: int, offset: int)
    requires
        0 <= at,
        0 <= offset < pattern.len(),
        at + offset >= text.len() || text[at + offset] != pattern[offset],
    ensures
        !starts_at(text, pattern, at),
{
    if at + pattern.len() <= text.len() {
        assert(text.subrange(at, at + pattern.len())[offset] == text[at + offset]);
    }
}

/// Where no match starts before place `end`, the text up to `end` is kept as
/// it is.
pub proof fn lemma_replaced_after(text: Seq<char>, pattern: Seq<char>, with: Seq<char>, end: int)
    requires
        pattern.len() > 0,
        0 <= end <= text.len(),
        forall|at: int| 0 <= at < end ==> !starts_at(text, pattern, at),
    ensures
        replaced(text, pattern, with) == text.take(end) + replaced(text.skip(end), pattern, with),
    decreases end,
{
    if end == 0 {
        assert(text.take(0) + replaced(text.skip(0), pattern, with) =~= replaced(
            text,
            pattern,
            with,
        )) by {
            assert(text.skip(0) =~= text);
        }
    } else if text.len() < pattern.len() {
        assert(text.skip(end).len() < pattern.len());
        assert(text.take(end) + text.skip(end) =~= text);
    } else {
        let rest = text.skip(1);
        assert forall|at: int| 0 <= at < end - 1 implies !starts_at(rest, pattern, at) by {
            assert(!starts_at(text, pattern, at + 1));
            if at + pattern.len() <= rest.len() {
                assert(rest.subrange(at, at + pattern.len()) =~= text.subrange(
                    at + 1,
                    at + 1 + pattern.len(),
                ));
            }
        }
        lemma_replaced_after(rest, pattern, with, end - 1);
        assert(!starts_at(text, pattern, 0));
        assert(rest.skip(end - 1) =~= text.skip(end));
        assert(seq![text[0]] + (rest.take(end - 1) + replaced(text.skip(end), pattern, with))
            =~= text.take(end) + replaced(text.skip(end), pattern, with));
    }
}

/// A text without any match is kept as it is.
pub proof fn lemma_replaced_nothing(text: Seq<char>, pattern: Seq<char>, with: Seq<char>)
    requires
        pattern.len() > 0,
        forall|at: int| 0 <= at < text.len() ==> !starts_at(text, pattern, at),
    ensures
        replaced(text, pattern, with) == text,
{
    lemma_replaced_after(text, pattern, with, text.len() as int);
    assert(text.skip(text.len() as int) =~= Seq::<char>::empty());
    assert(text.take(text.len() as int) + Seq::<char>::empty() =~= text);
}

/// The one match of a text: where the pattern stands between `before` and
/// `after` and no match starts earlier or later, it alone gives way.
pub proof fn lemma_replaced_once(
    before: Seq<char>,
    pattern: Seq<char>,
    after: Seq<char>,
    with: Seq<char>,
)
    requires
        pattern.len() > 0,
        forall|at: int|
            0 <= at < before.len() ==> !starts_at(before + pattern + after, pattern, at),
        forall|at: int| 0 <= at < after.len() ==> !starts_at(after, pattern, at),
    ensures
        replaced(before + pattern + after, pattern, with) == before + with + after,
{
    let text = before + pattern + after;
    let tail = text.skip(before.len() as int);
    lemma_replaced_after(text, pattern, with, before.len() as int);
    lemma_replaced_nothing(after, pattern, with);
    assert(text.take(before.len() as int) =~= before);
    assert(tail =~= pattern + after);
    assert(tail.subrange(0, pattern.len() as int) =~= pattern);
    assert(tail.skip(pattern.len() as int) =~= after);
    assert(before + (with + after) =~= before + with + after);
}

} // verus!
