//! Finding a separator in a text and cutting the text in two at it.

use vstd::prelude::*;

verus! {

/// `pattern` stands in `text` at position `at`.
pub open spec fn occurs_at(text: Seq<char>, pattern: Seq<char>, at: int) -> bool {
    &&& 0 <= at
    &&& at + pattern.len() <= text.len()
    &&& text.subrange(at, at + pattern.len()) == pattern
}

/// `pattern` stands somewhere in `text`.
pub open spec fn occurs(text: Seq<char>, pattern: Seq<char>) -> bool {
    exists|at: int| occurs_at(text, pattern, at)
}

/// `pattern` stands in `text` at `at` and nowhere before.
pub open spec fn is_first_occurrence(text: Seq<char>, pattern: Seq<char>, at: int) -> bool {
    &&& occurs_at(text, pattern, at)
    &&& forall|earlier: int| 0 <= earlier < at ==> !occurs_at(text, pattern, earlier)
}

/// Where `pattern` first stands in `text`; meaningful when it occurs at all.
pub open spec fn first_occurrence(text: Seq<char>, pattern: Seq<char>) -> int {
    choose|at: int| is_first_occurrence(text, pattern, at)
}

/// The text before and the text after the first occurrence of `pattern`, or
/// nothing when `pattern` does not occur.
pub open spec fn split_once_spec(text: Seq<char>, pattern: Seq<char>) -> Option<
    (Seq<char>, Seq<char>),
> {
    if occurs(text, pattern) {
        let at = first_occurrence(text, pattern);
        Some((text.take(at), text.skip(at + pattern.len())))
    } else {
        None
    }
}

/// There is at most one first occurrence.
pub proof fn lemma_first_occurrence_unique(text: Seq<char>, pattern: Seq<char>, a: int, b: int)
    requires
        is_first_occurrence(text, pattern, a),
        is_first_occurrence(text, pattern, b),
    ensures
        a == b,
{
}

/// A position known to be the first occurrence is the one that
/// `first_occurrence` names, and it decides the split.
pub proof fn lemma_split_at_first(text: Seq<char>, pattern: Seq<char>, at: int)
    requires
        is_first_occurrence(text, pattern, at),
    ensures
        occurs(text, pattern),
        first_occurrence(text, pattern) == at,
        split_once_spec(text, pattern) == Some((text.take(at), text.skip(at + pattern.len()))),
{
    assert(occurs_at(text, pattern, at));
    lemma_first_occurrence_unique(text, pattern, at, first_occurrence(text, pattern));
}

/// `str::split_once` of the standard library: a text is cut at the first
/// occurrence of the delimiter, which belongs to neither part; without an
/// occurrence there is no result.
#[verifier::external_body]
fn std_split_once<'a>(text: &'a str, delimiter: &str) -> (parts: Option<(&'a str, &'a str)>)
    ensures
        match parts {
            Some((head, tail)) => {
                &&& text@ == head@ + delimiter@ + tail@
                &&& forall|earlier: int|
                    0 <= earlier < head@.len() ==> !occurs_at(text@, delimiter@, earlier)
            },
            None => !occurs(text@, delimiter@),
        },
{
    text.split_once(delimiter)
}

/// Cuts `text` at the first occurrence of `delimiter`.
pub fn split_once<'a>(text: &'a str, delimiter: &str) -> (parts: Option<(&'a str, &'a str)>)
    ensures
        match parts {
            Some((head, tail)) => split_once_spec(text@, delimiter@) == Some((head@, tail@)),
            None => split_once_spec(text@, delimiter@) is None,
        },
{
    let parts = std_split_once(text, delimiter);
    proof {
        if let Some((head, tail)) = parts {
            let at = head@.len() as int;
            let whole = head@ + delimiter@ + tail@;
            assert(whole.subrange(at, at + delimiter@.len()) =~= delimiter@);
            assert(whole.take(at) =~= head@);
            assert(whole.skip(at + delimiter@.len()) =~= tail@);
            lemma_split_at_first(text@, delimiter@, at);
        }
    }
    parts
}

} // verus!
