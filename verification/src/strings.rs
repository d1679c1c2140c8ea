//! Small building blocks for working with text as sequences of characters.

use vstd::prelude::*;
use vstd::string::StringExecFns;

verus! {

/// `String::push` appends one character to the end of the string.
pub assume_specification[ String::push ](s: &mut String, c: char)
    ensures
        final(s)@ == old(s)@.push(c),
;

/// The characters of `text`, in order.
pub fn chars_of(text: &str) -> (chars: Vec<char>)
    ensures
        chars@ == text@,
{
    broadcast use vstd::string::group_string_axioms;

    let mut chars: Vec<char> = Vec::new();
    for c in iter: text.chars()
        invariant
            iter.seq() == text@,
            chars@ == text@.take(iter.index() as int),
    {
        chars.push(c);
    }
    chars
}

/// The text made of `chars[from..to]`.
pub(crate) fn text_of(chars: &Vec<char>, from: usize, to: usize) -> (text: String)
    requires
        from <= to <= chars@.len(),
    ensures
        text@ == chars@.subrange(from as int, to as int),
{
    let mut text = String::new();
    let mut i: usize = from;
    while i < to
        invariant
            from <= i <= to <= chars@.len(),
            text@ == chars@.subrange(from as int, i as int),
        decreases to - i,
    {
        text.push(chars[i]);
        i = i + 1;
    }
    text
}

/// `first` followed by `second`.
pub fn followed_by(first: &str, second: &str) -> (joined: String)
    ensures
        joined@ == first@ + second@,
{
    let mut joined = String::from_str(first);
    joined.append(second);
    joined
}

/// Whether two texts hold the same characters.
pub fn same_text(a: &str, b: &str) -> (same: bool)
    ensures
        same == (a@ == b@),
{
    let x = String::from_str(a);
    let y = String::from_str(b);
    x == y
}

/// The character that writes the digit `d`.
pub open spec fn digit_char(d: nat) -> char
    recommends
        d < 10,
{
    if d == 0 {
        '0'
    } else if d == 1 {
        '1'
    } else if d == 2 {
        '2'
    } else if d == 3 {
        '3'
    } else if d == 4 {
        '4'
    } else if d == 5 {
        '5'
    } else if d == 6 {
        '6'
    } else if d == 7 {
        '7'
    } else if d == 8 {
        '8'
    } else {
        '9'
    }
}

/// The decimal numeral of `n`, without leading zeros.
pub open spec fn decimal(n: nat) -> Seq<char>
    decreases n,
{
    if n < 10 {
        seq![digit_char(n)]
    } else {
        decimal(n / 10).push(digit_char(n % 10))
    }
}

fn digit(d: u64) -> (c: char)
    requires
        d < 10,
    ensures
        c == digit_char(d as nat),
{
    if d == 0 {
        '0'
    } else if d == 1 {
        '1'
    } else if d == 2 {
        '2'
    } else if d == 3 {
        '3'
    } else if d == 4 {
        '4'
    } else if d == 5 {
        '5'
    } else if d == 6 {
        '6'
    } else if d == 7 {
        '7'
    } else if d == 8 {
        '8'
    } else {
        '9'
    }
}

/// Appends the decimal numeral of `n` to `out`.
pub fn push_decimal(out: &mut String, n: u64)
    ensures
        final(out)@ == old(out)@ + decimal(n as nat),
    decreases n,
{
    if n >= 10 {
        push_decimal(out, n / 10);
    }
    out.push(digit(n % 10));
}

/// The decimal numeral of `n`.
pub fn decimal_text(n: u64) -> (text: String)
    ensures
        text@ == decimal(n as nat),
{
    let mut text = String::new();
    push_decimal(&mut text, n);
    text
}

/// Whether `needle` stands in `hay` at position `at`.
pub open spec fn occurs_at(hay: Seq<char>, needle: Seq<char>, at: int) -> bool {
    &&& 0 <= at
    &&& at + needle.len() <= hay.len()
    &&& hay.subrange(at, at + needle.len()) == needle
}

/// The first position in `from..to` at which `needle` stands in `hay` without
/// reaching past `to`.
pub open spec fn first_in(hay: Seq<char>, needle: Seq<char>, from: int, to: int) -> Option<int>
    decreases to - from + 1,
{
    if from + needle.len() > to {
        None
    } else if occurs_at(hay, needle, from) {
        Some(from)
    } else {
        first_in(hay, needle, from + 1, to)
    }
}

/// `first_in` gives the least position of the window at which the needle
/// stands, and nothing where it stands nowhere in the window.
pub proof fn lemma_first_in_is_least(hay: Seq<char>, needle: Seq<char>, from: int, to: int)
    requires
        0 <= from,
        to <= hay.len(),
    ensures
        match first_in(hay, needle, from, to) {
            Some(at) => {
                &&& from <= at
                &&& at + needle.len() <= to
                &&& occurs_at(hay, needle, at)
                &&& forall|earlier: int| from <= earlier < at ==> !occurs_at(hay, needle, earlier)
            },
            None => forall|at: int|
                from <= at && at + needle.len() <= to ==> !occurs_at(hay, needle, at),
        },
    decreases to - from + 1,
{
    if from + needle.len() <= to && !occurs_at(hay, needle, from) {
        lemma_first_in_is_least(hay, needle, from + 1, to);
    }
}

/// Whether `needle` stands in `hay` at position `at`.
pub(crate) fn stands_at(hay: &Vec<char>, needle: &Vec<char>, at: usize) -> (stands: bool)
    requires
        at + needle@.len() <= hay@.len(),
    ensures
        stands == occurs_at(hay@, needle@, at as int),
{
    let total = hay.len();
    let mut k: usize = 0;
    while k < needle.len()
        invariant
            k <= needle@.len(),
            at + needle@.len() <= hay@.len() == total,
            forall|j: int| 0 <= j < k ==> hay@[at + j] == needle@[j],
        decreases needle@.len() - k,
    {
        if hay[at + k] != needle[k] {
            proof {
                let window = hay@.subrange(at as int, at + needle@.len());
                assert(window[k as int] == hay@[at + k]);
            }
            return false;
        }
        k = k + 1;
    }
    proof {
        assert(hay@.subrange(at as int, at + needle@.len()) =~= needle@);
    }
    true
}

/// The first position in `from..to` at which `needle` stands in `hay`
/// without reaching past `to`.
pub(crate) fn find(hay: &Vec<char>, needle: &Vec<char>, from: usize, to: usize) -> (found: Option<
    usize,
>)
    requires
        from <= to <= hay@.len(),
    ensures
        match found {
            Some(at) => first_in(hay@, needle@, from as int, to as int) == Some(at as int),
            None => first_in(hay@, needle@, from as int, to as int) is None,
        },
{
    if needle.len() > to - from {
        return None;
    }
    let last = to - needle.len();
    let mut at: usize = from;
    loop
        invariant
            from <= at <= last,
            last + needle@.len() == to,
            to <= hay@.len(),
            first_in(hay@, needle@, from as int, to as int) == first_in(
                hay@,
                needle@,
                at as int,
                to as int,
            ),
        decreases last - at,
    {
        if stands_at(hay, needle, at) {
            return Some(at);
        }
        if at == last {
            assert(first_in(hay@, needle@, at + 1, to as int) is None);
            return None;
        }
        at = at + 1;
    }
}

} // verus!
