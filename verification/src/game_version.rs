//! Game versions of the form `major.minor`.

use crate::text::chars_of;
use vstd::prelude::*;

verus! {

/// A decimal digit.
pub open spec fn is_digit(c: char) -> bool {
    '0' <= c <= '9'
}

/// The number that a run of decimal digits stands for.
pub open spec fn decimal_value(digits: Seq<char>) -> nat
    decreases digits.len(),
{
    if digits.len() == 0 {
        0
    } else {
        decimal_value(digits.drop_last()) * 10 + (digits.last() as nat - '0' as nat) as nat
    }
}

/// The text without a plus sign in front.
pub open spec fn unsigned_part(text: Seq<char>) -> Seq<char> {
    if text.len() > 0 && text[0] == '+' {
        text.drop_first()
    } else {
        text
    }
}

/// The 32-bit number that a text stands for: an optional plus sign, then one
/// or more decimal digits whose value fits 32 bits. Any other text stands for
/// none.
pub open spec fn parsed_u32(text: Seq<char>) -> Option<u32> {
    let digits = unsigned_part(text);
    if digits.len() > 0 && (forall|i: int| 0 <= i < digits.len() ==> is_digit(#[trigger] digits[i]))
        && decimal_value(digits) <= u32::MAX {
        Some(decimal_value(digits) as u32)
    } else {
        None
    }
}

/// The value of a run of digits is at least that of each of its beginnings.
pub proof fn lemma_decimal_value_grows(digits: Seq<char>, n: int)
    requires
        0 <= n <= digits.len(),
        forall|i: int| 0 <= i < digits.len() ==> is_digit(#[trigger] digits[i]),
    ensures
        decimal_value(digits.take(n)) <= decimal_value(digits),
    decreases digits.len() - n,
{
    if n == digits.len() {
        assert(digits.take(n) == digits);
    } else {
        let front = digits.drop_last();
        assert(front.take(n) == digits.take(n));
        lemma_decimal_value_grows(front, n);
        assert(is_digit(digits.last()));
    }
}

/// Reads the characters `chars[from..to]` as a 32-bit number.
pub fn parse_u32(chars: &Vec<char>, from: usize, to: usize) -> (r: Option<u32>)
    requires
        from <= to <= chars.len(),
    ensures
        r == parsed_u32(chars@.subrange(from as int, to as int)),
{
    let ghost text = chars@.subrange(from as int, to as int);
    let start = if from < to && chars[from] == '+' {
        from + 1
    } else {
        from
    };
    let ghost digits = unsigned_part(text);
    assert(digits == chars@.subrange(start as int, to as int)) by {
        if from < to {
            assert(text[0] == chars@[from as int]);
        }
        assert(digits =~= chars@.subrange(start as int, to as int));
    }
    if start == to {
        return None;
    }
    let mut value: u64 = 0;
    let mut i: usize = start;
    while i < to
        invariant
            start <= i <= to <= chars.len(),
            digits == chars@.subrange(start as int, to as int),
            digits == unsigned_part(chars@.subrange(from as int, to as int)),
            forall|j: int| 0 <= j < i - start ==> is_digit(#[trigger] digits[j]),
            value == decimal_value(digits.take(i - start)),
            value <= u32::MAX,
        decreases to - i,
    {
        let c = chars[i];
        assert(digits[i - start] == c);
        if c < '0' || c > '9' {
            return None;
        }
        let d: u64 = (c as u32 - '0' as u32) as u64;
        let next: u64 = value * 10 + d;
        proof {
            let upto = digits.take(i - start + 1);
            assert(upto.drop_last() == digits.take(i - start));
            assert(upto.last() == c);
            assert(next == decimal_value(upto));
            if next > u32::MAX {
                if forall|j: int| 0 <= j < digits.len() ==> is_digit(#[trigger] digits[j]) {
                    lemma_decimal_value_grows(digits, i - start + 1);
                }
            }
        }
        if next > u32::MAX as u64 {
            return None;
        }
        value = next;
        i += 1;
    }
    assert(digits.take(to - start) == digits);
    Some(value as u32)
}

/// The place of the first dot in a text; the text's length where it has none.
pub open spec fn first_dot(text: Seq<char>) -> int
    decreases text.len(),
{
    if text.len() == 0 || text[0] == '.' {
        0
    } else {
        1 + first_dot(text.drop_first())
    }
}

/// The first dot stands where no dot came before.
pub proof fn lemma_first_dot(text: Seq<char>, n: int)
    requires
        0 <= n <= text.len(),
        forall|j: int| 0 <= j < n ==> text[j] != '.',
        n == text.len() || text[n] == '.',
    ensures
        first_dot(text) == n,
    decreases n,
{
    if n > 0 {
        let rest = text.drop_first();
        assert forall|j: int| 0 <= j < n - 1 implies rest[j] != '.' by {
            assert(rest[j] == text[j + 1]);
        }
        lemma_first_dot(rest, n - 1);
    }
}

/// The game version that a text stands for: two numbers, major then minor,
/// with one dot between them. Each is written as a 32-bit number and is no
/// greater than the store's integer column holds, which is `i32::MAX`.
pub open spec fn parsed_game_version(text: Seq<char>) -> Option<(i32, i32)> {
    let dot = first_dot(text);
    if dot >= text.len() {
        None
    } else {
        let major = parsed_u32(text.subrange(0, dot));
        let minor = parsed_u32(text.subrange(dot + 1, text.len() as int));
        if major is Some && minor is Some && major->0 <= i32::MAX && minor->0 <= i32::MAX {
            Some((major->0 as i32, minor->0 as i32))
        } else {
            None
        }
    }
}

/// Reads a game version of the form `major.minor`.
pub fn parse_game_version(text: &str) -> (r: Option<(i32, i32)>)
    ensures
        r == parsed_game_version(text@),
{
    let chars = chars_of(text);
    let mut dot: usize = 0;
    while dot < chars.len() && chars[dot] != '.'
        invariant
            dot <= chars.len(),
            forall|j: int| 0 <= j < dot ==> chars@[j] != '.',
        decreases chars.len() - dot,
    {
        dot += 1;
    }
    proof {
        lemma_first_dot(chars@, dot as int);
    }
    if dot == chars.len() {
        return None;
    }
    let major = parse_u32(&chars, 0, dot);
    let minor = parse_u32(&chars, dot + 1, chars.len());
    match (major, minor) {
        (Some(major), Some(minor)) => {
            if major > 0x7fff_ffff || minor > 0x7fff_ffff {
                None
            } else {
                Some((major as i32, minor as i32))
            }
        },
        _ => None,
    }
}

} // verus!
