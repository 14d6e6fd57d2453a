//! The search for mods: how a raw query becomes a query of terms.

use crate::text::{chars_of, is_whitespace, push_char, white_space};
use vstd::prelude::*;

verus! {

/// Whether `char::is_alphanumeric` of std holds of `c`: whether `c` is a
/// letter or a number in Unicode's terms.
pub uninterp spec fn alphanumeric(c: char) -> bool;

/// `char::is_alphanumeric` from std. The result is referred to by the name
/// `alphanumeric`.
#[verifier::external_body]
pub(crate) fn is_alphanumeric(c: char) -> (r: bool)
    ensures
        r == alphanumeric(c),
{
    c.is_alphanumeric()
}

/// A character that parts two terms of a query: white space, and whatever is
/// neither a letter nor a number.
pub open spec fn is_separator(c: char) -> bool {
    white_space(c) || !alphanumeric(c)
}

/// Of each character of a query, whether it parts two terms.
pub open spec fn separators_of(query: Seq<char>) -> Seq<bool> {
    Seq::new(query.len(), |i: int| is_separator(query[i]))
}

/// Tells of each character whether it parts two terms.
pub fn classify_separators(chars: &Vec<char>) -> (marks: Vec<bool>)
    ensures
        marks@ == separators_of(chars@),
{
    let mut marks: Vec<bool> = Vec::new();
    let mut i: usize = 0;
    while i < chars.len()
        invariant
            i <= chars.len(),
            marks@ == separators_of(chars@.take(i as int)),
        decreases chars.len() - i,
    {
        let c = chars[i];
        marks.push(is_whitespace(c) || !is_alphanumeric(c));
        assert(marks@ =~= separators_of(chars@.take(i + 1)));
        i += 1;
    }
    assert(chars@.take(chars.len() as int) == chars@);
    marks
}

/// The terms of a query whose separators are marked: its longest runs of
/// unmarked characters, in order. `separators` holds one mark for each
/// character of `query`.
pub open spec fn terms_by(query: Seq<char>, separators: Seq<bool>) -> Seq<Seq<char>>
    decreases query.len(),
{
    if query.len() == 0 || separators.len() != query.len() {
        Seq::empty()
    } else {
        let before = terms_by(query.drop_last(), separators.drop_last());
        let c = query.last();
        if separators.last() {
            before
        } else if query.len() >= 2 && !separators[query.len() - 2] {
            before.drop_last().push(before.last().push(c))
        } else {
            before.push(Seq::empty().push(c))
        }
    }
}

/// The terms of a query: its longest runs of characters that are no
/// separators, in order.
pub open spec fn query_terms(query: Seq<char>) -> Seq<Seq<char>> {
    terms_by(query, separators_of(query))
}

/// The terms joined by ` & `, which asks for all of them.
pub open spec fn joined_terms(terms: Seq<Seq<char>>) -> Seq<char>
    decreases terms.len(),
{
    if terms.len() == 0 {
        Seq::empty()
    } else if terms.len() == 1 {
        terms[0]
    } else {
        joined_terms(terms.drop_last()) + " & "@ + terms.last()
    }
}

/// The query of terms that stands for a raw query.
pub open spec fn normalized_query(raw_query: Seq<char>) -> Seq<char> {
    joined_terms(query_terms(raw_query))
}

/// A query that ends in a character of a term has a last term, and that term
/// is not empty.
proof fn lemma_open_term(query: Seq<char>, separators: Seq<bool>)
    requires
        query.len() > 0,
        separators.len() == query.len(),
        !separators.last(),
    ensures
        terms_by(query, separators).len() > 0,
        terms_by(query, separators).last().len() > 0,
    decreases query.len(),
{
    if query.len() >= 2 && !separators[query.len() - 2] {
        assert(separators.drop_last().last() == separators[query.len() - 2]);
        lemma_open_term(query.drop_last(), separators.drop_last());
    }
}

/// Joins the terms of a query of which `separators` tells which characters
/// part two terms.
pub fn normalize_classified(chars: &Vec<char>, separators: &Vec<bool>) -> (r: String)
    requires
        separators.len() == chars.len(),
    ensures
        r@ == joined_terms(terms_by(chars@, separators@)),
{
    let mut out = String::new();
    let mut in_term = false;
    let mut any_term = false;
    let mut i: usize = 0;
    assert(chars@.take(0) =~= Seq::<char>::empty());
    while i < chars.len()
        invariant
            i <= chars.len(),
            separators.len() == chars.len(),
            out@ == joined_terms(terms_by(chars@.take(i as int), separators@.take(i as int))),
            in_term == (i > 0 && !separators@[i - 1]),
            any_term == (terms_by(chars@.take(i as int), separators@.take(i as int)).len() > 0),
        decreases chars.len() - i,
    {
        let c = chars[i];
        let ghost before = chars@.take(i as int);
        let ghost marks_before = separators@.take(i as int);
        let ghost upto = chars@.take(i + 1);
        let ghost marks = separators@.take(i + 1);
        let ghost terms = terms_by(before, marks_before);
        proof {
            assert(upto.drop_last() == before);
            assert(marks.drop_last() == marks_before);
            assert(upto.last() == c);
            assert(marks.last() == separators@[i as int]);
            if i > 0 {
                assert(marks[marks.len() - 2] == separators@[i - 1]);
                assert(marks_before.last() == separators@[i - 1]);
            }
        }
        if separators[i] {
            in_term = false;
        } else {
            if in_term {
                proof {
                    lemma_open_term(before, marks_before);
                    let grown = terms.drop_last().push(terms.last().push(c));
                    assert(terms_by(upto, marks) == grown);
                    assert(grown.drop_last() == terms.drop_last());
                    if terms.len() == 1 {
                        assert(joined_terms(grown) == terms[0].push(c));
                        assert(terms[0].push(c) =~= out@.push(c));
                    } else {
                        assert(joined_terms(grown) =~= joined_terms(terms).push(c));
                    }
                }
                push_char(&mut out, c);
            } else {
                proof {
                    let grown = terms.push(Seq::empty().push(c));
                    assert(terms_by(upto, marks) == grown);
                    assert(grown.drop_last() == terms);
                    if terms.len() == 0 {
                        assert(joined_terms(grown) =~= Seq::<char>::empty().push(c));
                    } else {
                        assert(joined_terms(grown) =~= (joined_terms(terms) + " & "@).push(c));
                    }
                }
                if any_term {
                    out.append(" & ");
                }
                push_char(&mut out, c);
            }
            in_term = true;
            any_term = true;
        }
        i += 1;
    }
    assert(chars@.take(chars.len() as int) == chars@);
    assert(separators@.take(chars.len() as int) == separators@);
    out
}

/// Turns a raw query into a query of terms: punctuation and white space part
/// the terms, and the terms are joined by ` & `.
pub fn normalize_search_query(raw_query: &str) -> (r: String)
    ensures
        r@ == normalized_query(raw_query@),
{
    let chars = chars_of(raw_query);
    let separators = classify_separators(&chars);
    normalize_classified(&chars, &separators)
}

} // verus!
