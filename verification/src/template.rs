//! Filling a placeholder in a page.

use vstd::prelude::*;

verus! {

/// `text` with every occurrence of `pattern` replaced by `with`, read from
/// the left; an occurrence that overlaps a replaced one does not count. With
/// an empty `pattern` the text stays as it is.
pub open spec fn replace_all(text: Seq<char>, pattern: Seq<char>, with: Seq<char>) -> Seq<char>
    decreases text.len(),
{
    if pattern.len() == 0 || text.len() < pattern.len() {
        text
    } else if text.subrange(0, pattern.len() as int) == pattern {
        with + replace_all(text.subrange(pattern.len() as int, text.len() as int), pattern, with)
    } else {
        seq![text[0]] + replace_all(text.subrange(1, text.len() as int), pattern, with)
    }
}

/// Calls `str::replace`. Trusted: for a pattern that is not empty, std
/// replaces all matches of the pattern, found from the left and not
/// overlapping, and copies the rest of the text.
#[verifier::external_body]
fn str_replace(text: &str, pattern: &str, with: &str) -> (filled: String)
    requires
        pattern@.len() > 0,
    ensures
        filled@ == replace_all(text@, pattern@, with@),
{
    text.replace(pattern, with)
}

/// Fills `placeholder` in `template` with `value`, wherever it stands. An
/// empty placeholder stands nowhere.
pub fn fill(template: &str, placeholder: &str, value: &str) -> (filled: String)
    ensures
        filled@ == replace_all(template@, placeholder@, value@),
{
    if placeholder.is_empty() {
        template.to_owned()
    } else {
        str_replace(template, placeholder, value)
    }
}

/// Whether `part` stands in `text` at position `at`.
pub open spec fn occurs_at(text: Seq<char>, part: Seq<char>, at: int) -> bool {
    0 <= at && at + part.len() <= text.len() && text.subrange(at, at + part.len()) == part
}

/// Whether `part` stands somewhere in `text`.
pub open spec fn occurs_in(text: Seq<char>, part: Seq<char>) -> bool {
    exists|at: int| occurs_at(text, part, at)
}

/// A text that holds the pattern holds the replacement once it is filled:
/// where `pattern` is not empty and stands somewhere in `text`, `with`
/// stands somewhere in `replace_all(text, pattern, with)`.
pub proof fn lemma_replacement_occurs(text: Seq<char>, pattern: Seq<char>, with: Seq<char>)
    requires
        pattern.len() > 0,
        occurs_in(text, pattern),
    ensures
        occurs_in(replace_all(text, pattern, with), with),
    decreases text.len(),
{
    let at = choose|at: int| occurs_at(text, pattern, at);
    let filled = replace_all(text, pattern, with);
    if text.subrange(0, pattern.len() as int) == pattern {
        assert(filled.subrange(0, with.len() as int) =~= with);
        assert(occurs_at(filled, with, 0));
    } else {
        let rest = text.subrange(1, text.len() as int);
        assert(at >= 1);
        assert(rest.subrange(at - 1, at - 1 + pattern.len()) =~= text.subrange(at, at + pattern.len()));
        assert(occurs_at(rest, pattern, at - 1));
        lemma_replacement_occurs(rest, pattern, with);
        let filled_rest = replace_all(rest, pattern, with);
        let found = choose|found: int| occurs_at(filled_rest, with, found);
        assert(filled == seq![text[0]] + filled_rest);
        assert(filled.subrange(found + 1, found + 1 + with.len()) =~= filled_rest.subrange(
            found,
            found + with.len(),
        ));
        assert(occurs_at(filled, with, found + 1));
    }
}

} // verus!
