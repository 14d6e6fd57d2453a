//! Small verified helpers on strings, stated over their `Seq<char>` views.

use vstd::prelude::*;

verus! {

/// `String::push` from std: appends one character.
#[verifier::external_body]
pub(crate) fn push_char(s: &mut String, c: char)
    ensures
        final(s)@ == old(s)@.push(c),
{
    s.push(c)
}

/// `str::eq` from std: two string slices are equal exactly when they hold the
/// same characters.
#[verifier::external_body]
pub(crate) fn str_eq(a: &str, b: &str) -> (r: bool)
    ensures
        r == (a@ == b@),
{
    a == b
}

/// The characters of `s`, in order.
pub fn chars_of(s: &str) -> (v: Vec<char>)
    ensures
        v@ == s@,
{
    let mut v: Vec<char> = Vec::new();
    let mut it = s.chars();
    for c in iter: it
        invariant
            v@ == iter.seq().take(iter.index@),
    {
        v.push(c);
    }
    v
}

/// Whether `c` has the Unicode property White_Space: the controls from tab
/// to carriage return, the space, the next-line control, the no-break space,
/// the Ogham space mark, the spaces from en quad to hair space, the line and
/// paragraph separators, the narrow no-break space, the medium mathematical
/// space and the ideographic space.
pub open spec fn white_space(c: char) -> bool {
    ||| '\u{9}' <= c <= '\u{d}'
    ||| c == ' '
    ||| c == '\u{85}'
    ||| c == '\u{a0}'
    ||| c == '\u{1680}'
    ||| '\u{2000}' <= c <= '\u{200a}'
    ||| c == '\u{2028}'
    ||| c == '\u{2029}'
    ||| c == '\u{202f}'
    ||| c == '\u{205f}'
    ||| c == '\u{3000}'
}

/// `char::is_whitespace` from std, which tells whether the character has the
/// Unicode property White_Space.
#[verifier::external_body]
pub(crate) fn is_whitespace(c: char) -> (r: bool)
    ensures
        r == white_space(c),
{
    c.is_whitespace()
}

/// Of each character of `s`, whether it is white space.
pub open spec fn white_space_of(s: Seq<char>) -> Seq<bool> {
    Seq::new(s.len(), |i: int| white_space(s[i]))
}

/// Tells of each character whether it is white space.
pub fn classify_white_space(chars: &Vec<char>) -> (marks: Vec<bool>)
    ensures
        marks@ == white_space_of(chars@),
{
    let mut marks: Vec<bool> = Vec::new();
    let mut i: usize = 0;
    while i < chars.len()
        invariant
            i <= chars.len(),
            marks@ == white_space_of(chars@.take(i as int)),
        decreases chars.len() - i,
    {
        marks.push(is_whitespace(chars[i]));
        assert(marks@ =~= white_space_of(chars@.take(i + 1)));
        i += 1;
    }
    assert(chars@.take(chars.len() as int) == chars@);
    marks
}

/// How many marks stand at the front without a gap.
pub open spec fn leading_marks(marks: Seq<bool>) -> nat
    decreases marks.len(),
{
    if marks.len() > 0 && marks[0] {
        1 + leading_marks(marks.drop_first())
    } else {
        0
    }
}

/// How many marks stand at the back without a gap.
pub open spec fn trailing_marks(marks: Seq<bool>) -> nat
    decreases marks.len(),
{
    if marks.len() > 0 && marks.last() {
        1 + trailing_marks(marks.drop_last())
    } else {
        0
    }
}

/// `s` without the characters that are marked at its front and at its back;
/// `marks` holds one mark for each character of `s`.
pub open spec fn trimmed_by(s: Seq<char>, marks: Seq<bool>) -> Seq<char> {
    let from = leading_marks(marks);
    let to = s.len() - trailing_marks(marks);
    if from >= to {
        Seq::empty()
    } else {
        s.subrange(from as int, to)
    }
}

/// `s` without leading and trailing white space.
pub open spec fn trimmed(s: Seq<char>) -> Seq<char> {
    trimmed_by(s, white_space_of(s))
}

/// A run of `n` marks at the front that an unmarked place or the end follows
/// is the leading run.
pub proof fn lemma_leading_marks(marks: Seq<bool>, n: int)
    requires
        0 <= n <= marks.len(),
        forall|i: int| 0 <= i < n ==> marks[i],
        n == marks.len() || !marks[n],
    ensures
        leading_marks(marks) == n,
    decreases n,
{
    if n > 0 {
        let rest = marks.drop_first();
        assert forall|i: int| 0 <= i < n - 1 implies rest[i] by {
            assert(rest[i] == marks[i + 1]);
        }
        lemma_leading_marks(rest, n - 1);
    }
}

/// A run of `n` marks at the back that an unmarked place or the beginning
/// precedes is the trailing run.
pub proof fn lemma_trailing_marks(marks: Seq<bool>, n: int)
    requires
        0 <= n <= marks.len(),
        forall|i: int| marks.len() - n <= i < marks.len() ==> marks[i],
        n == marks.len() || !marks[marks.len() - n - 1],
    ensures
        trailing_marks(marks) == n,
    decreases n,
{
    if n > 0 {
        let rest = marks.drop_last();
        assert forall|i: int| rest.len() - (n - 1) <= i < rest.len() implies rest[i] by {
            assert(rest[i] == marks[i]);
        }
        lemma_trailing_marks(rest, n - 1);
    }
}

/// The bounds of what is left of a text when the marked characters at its
/// front and at its back are cut off: the number of leading marks, and the
/// length less the number of trailing marks. Both are the length where every
/// character is marked.
pub fn trim_bounds(marks: &Vec<bool>) -> (r: (usize, usize))
    ensures
        r.0 <= r.1 <= marks.len(),
        r.0 == leading_marks(marks@),
        r.0 < r.1 ==> r.1 == marks.len() - trailing_marks(marks@),
        r.0 == r.1 ==> r.0 == marks.len(),
{
    let n = marks.len();
    let mut start: usize = 0;
    while start < n && marks[start]
        invariant
            start <= n == marks.len(),
            forall|i: int| 0 <= i < start ==> marks@[i],
        decreases n - start,
    {
        start += 1;
    }
    let mut end: usize = n;
    while end > start && marks[end - 1]
        invariant
            start <= end <= n == marks.len(),
            forall|i: int| end <= i < n ==> marks@[i],
        decreases end,
    {
        end -= 1;
    }
    proof {
        lemma_leading_marks(marks@, start as int);
        if start < end {
            lemma_trailing_marks(marks@, n - end);
        }
    }
    (start, end)
}

/// `needle` occurs in `haystack` as a run of consecutive characters.
pub open spec fn has_substring(haystack: Seq<char>, needle: Seq<char>) -> bool {
    exists|i: int|
        0 <= i <= haystack.len() - needle.len() && #[trigger] haystack.subrange(
            i,
            i + needle.len(),
        ) == needle
}

fn matches_at(haystack: &Vec<char>, needle: &Vec<char>, at: usize) -> (r: bool)
    requires
        at + needle.len() <= haystack.len(),
    ensures
        r == (haystack@.subrange(at as int, at + needle.len()) == needle@),
{
    let mut j: usize = 0;
    while j < needle.len()
        invariant
            j <= needle.len(),
            at + needle.len() <= haystack.len(),
            forall|k: int| 0 <= k < j ==> haystack@[at + k] == needle@[k],
        decreases needle.len() - j,
    {
        if haystack[at + j] != needle[j] {
            assert(haystack@.subrange(at as int, at + needle.len())[j as int] != needle@[j as int]);
            return false;
        }
        j += 1;
    }
    assert(haystack@.subrange(at as int, at + needle.len()) =~= needle@);
    true
}

/// Whether `needle` occurs in `haystack`.
pub fn contains(haystack: &str, needle: &str) -> (r: bool)
    ensures
        r == has_substring(haystack@, needle@),
{
    let h = chars_of(haystack);
    let n = chars_of(needle);
    let mut i: usize = 0;
    while n.len() <= h.len() - i
        invariant
            i <= h.len(),
            h@ == haystack@,
            n@ == needle@,
            forall|k: int| 0 <= k < i ==> #[trigger] h@.subrange(k, k + n.len()) != n@,
        decreases h.len() - i,
    {
        if matches_at(&h, &n, i) {
            return true;
        }
        assert(n.len() > 0) by {
            if n.len() == 0 {
                assert(h@.subrange(i as int, i + n.len()) =~= n@);
            }
        }
        i += 1;
    }
    false
}

/// The three texts one after another.
pub fn concat3(a: &str, b: &str, c: &str) -> (s: String)
    ensures
        s@ == a@ + b@ + c@,
{
    let mut s = String::from_str(a);
    s.append(b);
    s.append(c);
    s
}

} // verus!
