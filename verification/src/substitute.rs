//! Literal find-and-replace on served text.
//!
//! A substitution list is applied pair by pair, in the order given. Each pair
//! rewrites the whole text once, so a later pair sees what an earlier one
//! wrote, and no pair is applied a second time.

use crate::text::{from_chars, matches_at, occurs_at, push_all, to_chars};
use vstd::prelude::*;

verus! {

/// The text with every occurrence of `pattern` replaced, scanning from the
/// left. Occurrences do not overlap: after a match the scan resumes behind it,
/// and what was written in its place is not scanned again. An empty pattern
/// matches before every character and at the end.
pub open spec fn replace_all(text: Seq<char>, pattern: Seq<char>, replacement: Seq<char>) -> Seq<
    char,
>
    decreases text.len(),
{
    if text.len() == 0 {
        if pattern.len() == 0 {
            replacement
        } else {
            text
        }
    } else if pattern.len() == 0 {
        replacement + seq![text[0]] + replace_all(text.skip(1), pattern, replacement)
    } else if occurs_at(text, pattern, 0) {
        replacement + replace_all(text.skip(pattern.len() as int), pattern, replacement)
    } else {
        seq![text[0]] + replace_all(text.skip(1), pattern, replacement)
    }
}

/// The text after each pair of `pairs` was applied to it in turn.
pub open spec fn substitute(text: Seq<char>, pairs: Seq<(Seq<char>, Seq<char>)>) -> Seq<char>
    decreases pairs.len(),
{
    if pairs.len() == 0 {
        text
    } else {
        replace_all(substitute(text, pairs.drop_last()), pairs.last().0, pairs.last().1)
    }
}

/// One step of the scan: what `replace_all` does at position `at`.
proof fn lemma_replace_step(
    text: Seq<char>,
    pattern: Seq<char>,
    replacement: Seq<char>,
    at: int,
)
    requires
        0 <= at < text.len(),
    ensures
        pattern.len() == 0 ==> replace_all(text.skip(at), pattern, replacement) == replacement
            + seq![text[at]] + replace_all(text.skip(at + 1), pattern, replacement),
        pattern.len() > 0 && occurs_at(text, pattern, at) ==> replace_all(
            text.skip(at),
            pattern,
            replacement,
        ) == replacement + replace_all(text.skip(at + pattern.len()), pattern, replacement),
        pattern.len() > 0 && !occurs_at(text, pattern, at) ==> replace_all(
            text.skip(at),
            pattern,
            replacement,
        ) == seq![text[at]] + replace_all(text.skip(at + 1), pattern, replacement),
{
    let rest = text.skip(at);
    assert(rest.skip(1) == text.skip(at + 1));
    assert(rest[0] == text[at]);
    if pattern.len() > 0 {
        if at + pattern.len() <= text.len() {
            assert(rest.subrange(0, pattern.len() as int) == text.subrange(
                at,
                at + pattern.len(),
            ));
            assert(rest.skip(pattern.len() as int) == text.skip(at + pattern.len()));
        }
    }
}

/// Replaces every occurrence of `pattern` in `text`.
pub fn replace_chars(text: &Vec<char>, pattern: &Vec<char>, replacement: &Vec<char>) -> (out: Vec<
    char,
>)
    ensures
        out@ == replace_all(text@, pattern@, replacement@),
{
    let mut out: Vec<char> = Vec::new();
    let mut i: usize = 0;
    assert(text@.skip(0) == text@);
    while i < text.len()
        invariant
            i <= text.len(),
            replace_all(text@, pattern@, replacement@) == out@ + replace_all(
                text@.skip(i as int),
                pattern@,
                replacement@,
            ),
        decreases text.len() - i,
    {
        proof {
            lemma_replace_step(text@, pattern@, replacement@, i as int);
        }
        if pattern.len() == 0 {
            push_all(&mut out, replacement);
            out.push(text[i]);
            i += 1;
        } else if matches_at(text, pattern, i) {
            push_all(&mut out, replacement);
            i += pattern.len();
        } else {
            out.push(text[i]);
            i += 1;
        }
    }
    if pattern.len() == 0 {
        push_all(&mut out, replacement);
    }
    assert(text@.skip(text.len() as int).len() == 0);
    out
}

/// Replaces every occurrence of `pattern` in `text` by `replacement`.
pub fn replace(text: &str, pattern: &str, replacement: &str) -> (out: String)
    ensures
        out@ == replace_all(text@, pattern@, replacement@),
{
    let replaced = replace_chars(&to_chars(text), &to_chars(pattern), &to_chars(replacement));
    from_chars(&replaced)
}

/// Applies the substitution pairs to `text`, each once, in the order given.
pub fn apply_substitutions(text: &str, replace_map: &Vec<(String, String)>) -> (out: String)
    ensures
        out@ == substitute(text@, replace_map.deep_view()),
{
    let mut current = to_chars(text);
    let mut i: usize = 0;
    assert(replace_map.deep_view().take(0).len() == 0);
    while i < replace_map.len()
        invariant
            i <= replace_map.len(),
            current@ == substitute(text@, replace_map.deep_view().take(i as int)),
        decreases replace_map.len() - i,
    {
        let pattern = to_chars(replace_map[i].0.as_str());
        let replacement = to_chars(replace_map[i].1.as_str());
        proof {
            let pairs = replace_map.deep_view();
            assert(pairs.take(i + 1).drop_last() == pairs.take(i as int));
            assert(pairs.take(i + 1).last() == (pattern@, replacement@));
        }
        current = replace_chars(&current, &pattern, &replacement);
        i += 1;
    }
    assert(replace_map.deep_view().take(replace_map.len() as int) == replace_map.deep_view());
    from_chars(&current)
}

/// Each pair is applied exactly once, to what the pairs before it produced:
/// adding a pair at the end rewrites the earlier result and nothing else.
pub proof fn lemma_substitute_in_order(
    text: Seq<char>,
    pairs: Seq<(Seq<char>, Seq<char>)>,
    next: (Seq<char>, Seq<char>),
)
    ensures
        substitute(text, pairs.push(next)) == replace_all(substitute(text, pairs), next.0, next.1),
{
    assert(pairs.push(next).drop_last() == pairs);
}

/// With no substitution configured the text is served as it is.
pub proof fn lemma_substitute_nothing(text: Seq<char>)
    ensures
        substitute(text, Seq::empty()) == text,
{
}

/// A match is rewritten once: the replacement is written out as it is, and
/// the scan goes on behind the match, never inside what was written.
pub proof fn lemma_replacement_not_rescanned(
    pattern: Seq<char>,
    replacement: Seq<char>,
    rest: Seq<char>,
)
    requires
        pattern.len() > 0,
    ensures
        replace_all(pattern + rest, pattern, replacement) == replacement + replace_all(
            rest,
            pattern,
            replacement,
        ),
{
    let text = pattern + rest;
    assert(text.subrange(0, pattern.len() as int) == pattern);
    assert(text.skip(pattern.len() as int) == rest);
}

/// A text in which the pattern does not occur is left unchanged.
pub proof fn lemma_replace_without_match(
    text: Seq<char>,
    pattern: Seq<char>,
    replacement: Seq<char>,
)
    requires
        pattern.len() > 0,
        forall|at: int| !occurs_at(text, pattern, at),
    ensures
        replace_all(text, pattern, replacement) == text,
    decreases text.len(),
{
    if text.len() > 0 {
        let rest = text.skip(1);
        assert forall|at: int| !occurs_at(rest, pattern, at) by {
            if occurs_at(rest, pattern, at) {
                assert(rest.subrange(at, at + pattern.len()) == text.subrange(
                    at + 1,
                    at + 1 + pattern.len(),
                ));
                assert(occurs_at(text, pattern, at + 1));
            }
        }
        lemma_replace_without_match(rest, pattern, replacement);
        assert(seq![text[0]] + rest == text);
    }
}

} // verus!
