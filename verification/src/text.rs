//! Helpers on lists of strings, stated over their character sequences.

use vstd::prelude::*;

verus! {

/// The character sequences that a list of strings holds, in order.
pub open spec fn text_views(texts: Seq<String>) -> Seq<Seq<char>> {
    texts.map_values(|s: String| s@)
}

/// The character sequences that a list of string slices holds, in order.
pub open spec fn str_views(texts: Seq<&str>) -> Seq<Seq<char>> {
    texts.map_values(|s: &str| s@)
}

/// Pushing a string pushes its characters onto the list of views.
pub proof fn lemma_text_views_push(texts: Seq<String>, text: String)
    ensures
        text_views(texts.push(text)) == text_views(texts).push(text@),
{
    assert(text_views(texts.push(text)) =~= text_views(texts).push(text@));
}

/// Tells whether `text` occurs in `texts`.
pub fn holds_text(texts: &Vec<String>, text: &String) -> (found: bool)
    ensures
        found == text_views(texts@).contains(text@),
{
    let mut i: usize = 0;
    while i < texts.len()
        invariant
            i <= texts.len(),
            forall|j: int| 0 <= j < i ==> text_views(texts@)[j] != text@,
        decreases texts.len() - i,
    {
        if texts[i] == *text {
            assert(text_views(texts@)[i as int] == text@);
            return true;
        }
        i += 1;
    }
    false
}

/// A copy of `texts`, string by string.
pub fn copy_texts(texts: &Vec<String>) -> (out: Vec<String>)
    ensures
        out@ == texts@,
{
    let mut out: Vec<String> = Vec::new();
    let mut i: usize = 0;
    while i < texts.len()
        invariant
            i <= texts.len(),
            out@ == texts@.take(i as int),
        decreases texts.len() - i,
    {
        out.push(texts[i].clone());
        assert(out@ =~= texts@.take(i + 1));
        i += 1;
    }
    assert(texts@.take(texts.len() as int) =~= texts@);
    out
}

/// The characters of `text` as a vector.
pub fn to_chars(text: &str) -> (out: Vec<char>)
    ensures
        out@ == text@,
{
    let mut out: Vec<char> = Vec::new();
    for c in it: text.chars()
        invariant
            it.seq() == text@,
            out@ == it.seq().take(it.index()),
    {
        out.push(c);
    }
    out
}

} // verus!
