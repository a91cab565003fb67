//! Text as sequences of characters: what it means for one text to occur in
//! another, and the string operations of the standard library that the rest
//! of the crate builds on.

use vstd::prelude::*;

verus! {

/// `needle` occurs in `hay`, starting at position `at`.
pub open spec fn occurs_at(hay: Seq<char>, needle: Seq<char>, at: int) -> bool {
    &&& 0 <= at
    &&& at + needle.len() <= hay.len()
    &&& hay.subrange(at, at + needle.len()) == needle
}

/// `needle` occurs somewhere in `hay`. The empty text occurs in every text.
pub open spec fn is_substring(needle: Seq<char>, hay: Seq<char>) -> bool {
    exists|at: int| occurs_at(hay, needle, at)
}

/// `at` is the leftmost position at which `needle` occurs in `hay`.
pub open spec fn first_occurrence(hay: Seq<char>, needle: Seq<char>, at: int) -> bool {
    &&& occurs_at(hay, needle, at)
    &&& forall|earlier: int| 0 <= earlier < at ==> !occurs_at(hay, needle, earlier)
}

/// The leftmost position at which `needle` occurs in `hay`; meaningful only
/// when `is_substring(needle, hay)`.
pub open spec fn first_index(hay: Seq<char>, needle: Seq<char>) -> int {
    choose|at: int| first_occurrence(hay, needle, at)
}

/// The part of `hay` before the first occurrence of `needle`.
pub open spec fn before_first(hay: Seq<char>, needle: Seq<char>) -> Seq<char> {
    hay.subrange(0, first_index(hay, needle))
}

/// The part of `hay` after the first occurrence of `needle`.
pub open spec fn after_first(hay: Seq<char>, needle: Seq<char>) -> Seq<char> {
    hay.subrange(first_index(hay, needle) + needle.len(), hay.len() as int)
}

/// The lower-case form of a text, as `str::to_lowercase` computes it from the
/// Unicode tables.
pub uninterp spec fn lowercase(s: Seq<char>) -> Seq<char>;

/// A text without its leading and trailing white space, as `str::trim`
/// computes it: white space is what Unicode marks as `White_Space`.
pub uninterp spec fn trimmed(s: Seq<char>) -> Seq<char>;

/// Every text of `texts` in lower case.
pub open spec fn lowercase_all(texts: Seq<Seq<char>>) -> Seq<Seq<char>> {
    Seq::new(texts.len(), |i: int| lowercase(texts[i]))
}

/// The views of the strings of a vector.
pub open spec fn views(texts: Seq<String>) -> Seq<Seq<char>> {
    Seq::new(texts.len(), |i: int| texts[i]@)
}

/// The view of an optional string.
pub open spec fn optional_view(text: Option<String>) -> Option<Seq<char>> {
    match text {
        Some(s) => Some(s@),
        None => None,
    }
}

/// Once a leftmost occurrence is known, `first_index` is that position.
pub proof fn lemma_first_index_is(hay: Seq<char>, needle: Seq<char>, at: int)
    requires
        first_occurrence(hay, needle, at),
    ensures
        first_index(hay, needle) == at,
        is_substring(needle, hay),
{
}

/// Calls `str::to_lowercase`. The result is the lower-case form of the
/// argument; which characters that changes is left to the standard library.
#[verifier::external_body]
pub(crate) fn to_lowercase(s: &str) -> (r: String)
    ensures
        r@ == lowercase(s@),
{
    s.to_lowercase()
}

/// Calls `str::contains` with a string pattern: true exactly when the pattern
/// matches a sub-slice of the text.
#[verifier::external_body]
pub(crate) fn contains(hay: &str, needle: &str) -> (r: bool)
    ensures
        r == is_substring(needle@, hay@),
{
    hay.contains(needle)
}

/// Calls `str::split_once` with a string delimiter: `None` when the delimiter
/// does not occur, otherwise the text before its first occurrence and the
/// text after it.
#[verifier::external_body]
pub(crate) fn split_once<'a>(s: &'a str, delimiter: &str) -> (r: Option<(&'a str, &'a str)>)
    ensures
        r is None <==> !is_substring(delimiter@, s@),
        r matches Some((head, tail)) ==> exists|at: int|
            first_occurrence(s@, delimiter@, at) && head@ == s@.subrange(0, at) && tail@
                == s@.subrange(at + delimiter@.len(), s@.len() as int),
{
    s.split_once(delimiter)
}

/// Calls `str::trim`. The result is the argument without leading and trailing
/// white space; which characters count as white space is left to the
/// standard library.
#[verifier::external_body]
pub(crate) fn trim(s: &str) -> (r: &str)
    ensures
        r@ == trimmed(s@),
{
    s.trim()
}

/// Calls `String::push`, which appends one character.
#[verifier::external_body]
pub(crate) fn push_char(s: &mut String, c: char)
    ensures
        final(s)@ == old(s)@.push(c),
{
    s.push(c)
}

/// Cuts `s` at the first occurrence of `delimiter`.
pub fn cut<'a>(s: &'a str, delimiter: &str) -> (r: Option<(&'a str, &'a str)>)
    ensures
        r is Some <==> is_substring(delimiter@, s@),
        r matches Some((head, tail)) ==> head@ == before_first(s@, delimiter@) && tail@
            == after_first(s@, delimiter@),
{
    let r = split_once(s, delimiter);
    proof {
        if let Some((head, tail)) = r {
            let at = choose|at: int|
                first_occurrence(s@, delimiter@, at) && head@ == s@.subrange(0, at) && tail@
                    == s@.subrange(at + delimiter@.len(), s@.len() as int);
            lemma_first_index_is(s@, delimiter@, at);
        }
    }
    r
}

/// Whether two texts are the same.
pub fn same_text(a: &str, b: &str) -> (r: bool)
    ensures
        r == (a@ == b@),
{
    let left = a.to_owned();
    let right = b.to_owned();
    left == right
}

/// Every string of `texts` in lower case, in the same order.
pub fn to_lowercase_all(texts: &Vec<String>) -> (r: Vec<String>)
    ensures
        views(r@) == lowercase_all(views(texts@)),
{
    let mut lowered: Vec<String> = Vec::new();
    let mut i: usize = 0;
    while i < texts.len()
        invariant
            i <= texts.len(),
            lowered.len() == i,
            forall|k: int| 0 <= k < i ==> (#[trigger] lowered[k])@ == lowercase(texts[k]@),
        decreases texts.len() - i,
    {
        lowered.push(to_lowercase(texts[i].as_str()));
        i += 1;
    }
    lowered
}

/// Whether any text of `needles` occurs in `hay`.
pub open spec fn any_occurs(needles: Seq<Seq<char>>, hay: Seq<char>) -> bool {
    exists|i: int| 0 <= i < needles.len() && is_substring(#[trigger] needles[i], hay)
}

/// Whether any string of `needles` occurs in `hay`, as written (no case
/// folding).
pub fn contains_any(needles: &Vec<String>, hay: &str) -> (r: bool)
    ensures
        r == any_occurs(views(needles@), hay@),
{
    let mut i: usize = 0;
    while i < needles.len()
        invariant
            i <= needles.len(),
            forall|k: int| 0 <= k < i ==> !is_substring(#[trigger] views(needles@)[k], hay@),
        decreases needles.len() - i,
    {
        if contains(hay, needles[i].as_str()) {
            assert(is_substring(views(needles@)[i as int], hay@));
            return true;
        }
        i += 1;
    }
    false
}

} // verus!
