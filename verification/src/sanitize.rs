//! Cleaning of free text that users submit.

use crate::text::{
    chars_of, classify_white_space, push_char, trim_bounds, trimmed_by, white_space_of,
};
use vstd::prelude::*;

verus! {

/// A typographic quote becomes a plain double quote, an en dash a hyphen;
/// every other character stays.
pub open spec fn plain_char(c: char) -> char {
    if c == '\u{201C}' || c == '\u{201D}' {
        '"'
    } else if c == '\u{2013}' {
        '-'
    } else {
        c
    }
}

/// What sanitising makes of a text whose white space is marked: nothing if
/// nothing is left after the marked characters are cut off both ends, else
/// what is left with each character made plain.
pub open spec fn sanitized_by(s: Seq<char>, space: Seq<bool>) -> Option<Seq<char>> {
    let t = trimmed_by(s, space);
    if t.len() == 0 {
        None
    } else {
        Some(Seq::new(t.len(), |i: int| plain_char(t[i])))
    }
}

/// What sanitising makes of a text: nothing if only white space is left after
/// trimming, else the trimmed text with each character made plain.
pub open spec fn sanitized(s: Seq<char>) -> Option<Seq<char>> {
    sanitized_by(s, white_space_of(s))
}

fn to_plain(c: char) -> (r: char)
    ensures
        r == plain_char(c),
{
    if c == '\u{201C}' || c == '\u{201D}' {
        '"'
    } else if c == '\u{2013}' {
        '-'
    } else {
        c
    }
}

/// Sanitises characters of which `space` tells which are white space: cuts
/// the white space off both ends and replaces typographic quotes and dashes
/// by their plain forms.
pub fn sanitize_classified(chars: &Vec<char>, space: &Vec<bool>) -> (r: Option<String>)
    requires
        space.len() == chars.len(),
    ensures
        r is Some <==> sanitized_by(chars@, space@) is Some,
        r is Some ==> r->0@ == sanitized_by(chars@, space@)->0,
{
    let (start, end) = trim_bounds(space);
    if start == end {
        return None;
    }
    let ghost t = trimmed_by(chars@, space@);
    assert(t == chars@.subrange(start as int, end as int));
    let mut out = String::new();
    let mut i: usize = start;
    while i < end
        invariant
            start <= i <= end <= chars.len(),
            chars@.subrange(start as int, end as int) == t,
            out@ == Seq::new((i - start) as nat, |j: int| plain_char(t[j])),
        decreases end - i,
    {
        let c = to_plain(chars[i]);
        push_char(&mut out, c);
        proof {
            assert(t[i - start] == chars@[i as int]);
            assert(out@ =~= Seq::new((i + 1 - start) as nat, |j: int| plain_char(t[j])));
        }
        i += 1;
    }
    Some(out)
}

/// Trims `string` and replaces typographic quotes and dashes by their plain
/// forms. A text that is empty after trimming is refused.
pub fn sanitize_string(string: &str) -> (r: Option<String>)
    ensures
        r is Some <==> sanitized(string@) is Some,
        r is Some ==> r->0@ == sanitized(string@)->0,
{
    let chars = chars_of(string);
    let space = classify_white_space(&chars);
    sanitize_classified(&chars, &space)
}

} // verus!
