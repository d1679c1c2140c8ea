//! Cutting text into pieces: at a separator, and at the white space around a
//! piece; and reading numbers.

use vstd::prelude::*;
use crate::strings::{chars_of, text_of};
use crate::text::{is_space, is_whitespace};

verus! {

/// The pieces of `s` that lie between the occurrences of `sep`. There is
/// always one piece more than there are separators: a text without separator
/// is its own single piece, and a separator at the end is followed by an
/// empty piece.
pub open spec fn split(s: Seq<char>, sep: char) -> Seq<Seq<char>>
    decreases s.len(),
{
    if s.len() == 0 {
        seq![Seq::empty()]
    } else {
        let before = split(s.drop_last(), sep);
        if s.last() == sep {
            before.push(Seq::empty())
        } else {
            before.drop_last().push(before.last().push(s.last()))
        }
    }
}

/// `s` without the white space at its start.
pub open spec fn trim_start(s: Seq<char>) -> Seq<char>
    decreases s.len(),
{
    if s.len() > 0 && is_space(s[0]) {
        trim_start(s.drop_first())
    } else {
        s
    }
}

/// `s` without the white space at its end.
pub open spec fn trim_end(s: Seq<char>) -> Seq<char>
    decreases s.len(),
{
    if s.len() > 0 && is_space(s.last()) {
        trim_end(s.drop_last())
    } else {
        s
    }
}

/// `s` without the white space at either end.
pub open spec fn trimmed(s: Seq<char>) -> Seq<char> {
    trim_end(trim_start(s))
}

/// The value of the decimal digit `c`, if it is one.
pub open spec fn digit_value(c: char) -> Option<nat> {
    if '0' <= c <= '9' {
        Some((c as u32 - '0' as u32) as nat)
    } else {
        None
    }
}

/// The number that the decimal digits `s` write, if they all are digits.
/// No digits write zero.
pub open spec fn digits_value(s: Seq<char>) -> Option<nat>
    decreases s.len(),
{
    if s.len() == 0 {
        Some(0)
    } else {
        match (digits_value(s.drop_last()), digit_value(s.last())) {
            (Some(high), Some(low)) => Some(10 * high + low),
            _ => None,
        }
    }
}

/// The number that `s` writes: one decimal digit or more, after a plus sign
/// or without one.
pub open spec fn parse_unsigned(s: Seq<char>) -> Option<nat> {
    let digits = if s.len() > 0 && s[0] == '+' {
        s.drop_first()
    } else {
        s
    };
    if digits.len() == 0 {
        None
    } else {
        digits_value(digits)
    }
}

/// The number that `s` writes, if it writes one that is at most `max`.
pub open spec fn parse_at_most(s: Seq<char>, max: u64) -> Option<u64> {
    match parse_unsigned(s) {
        Some(number) => if number <= max {
            Some(number as u64)
        } else {
            None
        },
        None => None,
    }
}

/// The texts that the `bounds` cut out of `chars`.
pub open spec fn pieces(chars: Seq<char>, bounds: Seq<(usize, usize)>) -> Seq<Seq<char>> {
    Seq::new(bounds.len(), |k: int| chars.subrange(bounds[k].0 as int, bounds[k].1 as int))
}

/// Digits that go on write a number that is no less.
proof fn lemma_digits_grow(s: Seq<char>, k: int)
    requires
        0 <= k <= s.len(),
        digits_value(s) is Some,
    ensures
        digits_value(s.take(k)) is Some,
        digits_value(s.take(k))->0 <= digits_value(s)->0,
    decreases s.len(),
{
    if k == s.len() {
        assert(s.take(k) == s);
    } else {
        assert(s.drop_last().take(k) == s.take(k));
        lemma_digits_grow(s.drop_last(), k);
    }
}

/// Where the pieces of `chars[from..to]` between the occurrences of `sep`
/// begin and end.
pub(crate) fn split_bounds(chars: &Vec<char>, from: usize, to: usize, sep: char) -> (bounds: Vec<
    (usize, usize),
>)
    requires
        from <= to <= chars@.len(),
    ensures
        pieces(chars@, bounds@) == split(chars@.subrange(from as int, to as int), sep),
        forall|k: int|
            0 <= k < bounds@.len() ==> from <= (#[trigger] bounds@[k]).0 <= bounds@[k].1 <= to,
{
    let mut bounds: Vec<(usize, usize)> = Vec::new();
    let mut start: usize = from;
    let mut at: usize = from;
    proof {
        assert(chars@.subrange(from as int, from as int) =~= Seq::<char>::empty());
        assert(pieces(chars@, bounds@) =~= Seq::<Seq<char>>::empty());
        assert(Seq::<Seq<char>>::empty().push(Seq::<char>::empty()) =~= seq![
            Seq::<char>::empty(),
        ]);
    }
    while at < to
        invariant
            from <= start <= at <= to <= chars@.len(),
            forall|k: int|
                0 <= k < bounds@.len() ==> from <= (#[trigger] bounds@[k]).0 <= bounds@[k].1 <= to,
            pieces(chars@, bounds@).push(chars@.subrange(start as int, at as int)) == split(
                chars@.subrange(from as int, at as int),
                sep,
            ),
        decreases to - at,
    {
        let ghost seen = chars@.subrange(from as int, at + 1);
        let ghost done = pieces(chars@, bounds@);
        let ghost open = chars@.subrange(start as int, at as int);
        proof {
            assert(seen.drop_last() == chars@.subrange(from as int, at as int));
            assert(seen.last() == chars@[at as int]);
            assert(done.push(open).drop_last() == done);
            assert(done.push(open).last() == open);
        }
        if chars[at] == sep {
            bounds.push((start, at));
            start = at + 1;
            proof {
                assert(pieces(chars@, bounds@) =~= done.push(open));
                assert(chars@.subrange(start as int, at + 1) =~= Seq::<char>::empty());
            }
        } else {
            proof {
                assert(chars@.subrange(start as int, at + 1) =~= open.push(chars@[at as int]));
            }
        }
        at = at + 1;
    }
    let ghost done = pieces(chars@, bounds@);
    bounds.push((start, to));
    proof {
        assert(pieces(chars@, bounds@) =~= done.push(chars@.subrange(start as int, to as int)));
    }
    bounds
}

/// Where `chars[from..to]` begins and ends without the white space at
/// either end.
pub(crate) fn trim_bounds(chars: &Vec<char>, from: usize, to: usize) -> (bounds: (usize, usize))
    requires
        from <= to <= chars@.len(),
    ensures
        from <= bounds.0 <= bounds.1 <= to,
        chars@.subrange(bounds.0 as int, bounds.1 as int) == trimmed(
            chars@.subrange(from as int, to as int),
        ),
{
    let mut start: usize = from;
    while start < to && is_whitespace(chars[start])
        invariant
            from <= start <= to <= chars@.len(),
            trim_start(chars@.subrange(from as int, to as int)) == trim_start(
                chars@.subrange(start as int, to as int),
            ),
        decreases to - start,
    {
        proof {
            assert(chars@.subrange(start as int, to as int).drop_first() == chars@.subrange(
                start + 1,
                to as int,
            ));
        }
        start = start + 1;
    }
    let mut end: usize = to;
    while end > start && is_whitespace(chars[end - 1])
        invariant
            start <= end <= to <= chars@.len(),
            trimmed(chars@.subrange(from as int, to as int)) == trim_end(
                chars@.subrange(start as int, end as int),
            ),
        decreases end - start,
    {
        proof {
            assert(chars@.subrange(start as int, end as int).drop_last() == chars@.subrange(
                start as int,
                end - 1,
            ));
        }
        end = end - 1;
    }
    (start, end)
}

/// `text` without the white space at either end.
pub fn trim_text(text: &str) -> (trimmed_text: String)
    ensures
        trimmed_text@ == trimmed(text@),
{
    let chars = chars_of(text);
    let (start, end) = trim_bounds(&chars, 0, chars.len());
    proof {
        assert(chars@.subrange(0, chars@.len() as int) == chars@);
    }
    text_of(&chars, start, end)
}

fn digit_of(c: char) -> (digit: Option<u64>)
    ensures
        match digit {
            Some(value) => digit_value(c) == Some(value as nat) && value < 10,
            None => digit_value(c) is None,
        },
{
    if '0' <= c && c <= '9' {
        Some((c as u32 - '0' as u32) as u64)
    } else {
        None
    }
}

/// The number that `chars[from..to]` writes, if it writes one that is at
/// most `max`.
pub(crate) fn parse_number(chars: &Vec<char>, from: usize, to: usize, max: u64) -> (number: Option<
    u64,
>)
    requires
        from <= to <= chars@.len(),
    ensures
        number == parse_at_most(chars@.subrange(from as int, to as int), max),
{
    let ghost text = chars@.subrange(from as int, to as int);
    let first = if from < to && chars[from] == '+' {
        from + 1
    } else {
        from
    };
    let ghost digits = chars@.subrange(first as int, to as int);
    proof {
        if first > from {
            assert(text.drop_first() == digits);
        } else {
            assert(text == digits);
        }
    }
    if first == to {
        return None;
    }
    let mut value: u64 = 0;
    let mut at: usize = first;
    proof {
        assert(digits.take(0) == Seq::<char>::empty());
        assert(parse_unsigned(text) == digits_value(digits));
    }
    while at < to
        invariant
            from <= first <= at <= to <= chars@.len(),
            digits == chars@.subrange(first as int, to as int),
            parse_unsigned(chars@.subrange(from as int, to as int)) == digits_value(digits),
            digits_value(digits.take(at - first)) == Some(value as nat),
            value <= max,
        decreases to - at,
    {
        let ghost seen = digits.take(at - first + 1);
        proof {
            assert(seen.drop_last() == digits.take(at - first));
            assert(seen.last() == chars@[at as int]);
        }
        match digit_of(chars[at]) {
            None => {
                proof {
                    assert(digits_value(seen) is None);
                    if digits_value(digits) is Some {
                        lemma_digits_grow(digits, at - first + 1);
                    }
                }
                return None;
            },
            Some(digit) => {
                if digit > max || value > (max - digit) / 10 {
                    proof {
                        assert(10 * value + digit > max);
                        assert(digits_value(seen) == Some((10 * value + digit) as nat));
                        if digits_value(digits) is Some {
                            lemma_digits_grow(digits, at - first + 1);
                        }
                    }
                    return None;
                }
                value = 10 * value + digit;
            },
        }
        at = at + 1;
    }
    proof {
        assert(digits.take(to - first) == digits);
    }
    Some(value)
}

/// The number that `text` writes, if it writes one that is at most `max`:
/// one decimal digit or more, after a plus sign or without one.
pub fn parse_text(text: &str, max: u64) -> (number: Option<u64>)
    ensures
        number == parse_at_most(text@, max),
{
    let chars = chars_of(text);
    proof {
        assert(chars@.subrange(0, chars@.len() as int) == chars@);
    }
    parse_number(&chars, 0, chars.len(), max)
}

} // verus!
