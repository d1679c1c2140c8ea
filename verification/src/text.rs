//! Whitespace normalisation and word counting.

use vstd::prelude::*;

verus! {

/// Whether `c` is white space: a character with the Unicode property `White_Space`.
pub open spec fn is_space(c: char) -> bool {
    let u = c as u32;
    ||| 0x09 <= u <= 0x0D
    ||| u == 0x20
    ||| u == 0x85
    ||| u == 0xA0
    ||| u == 0x1680
    ||| 0x2000 <= u <= 0x200A
    ||| u == 0x2028
    ||| u == 0x2029
    ||| u == 0x202F
    ||| u == 0x205F
    ||| u == 0x3000
}

/// Whether `c` is white space.
pub fn is_whitespace(c: char) -> (space: bool)
    ensures
        space == is_space(c),
{
    let u: u32 = c as u32;
    (0x09 <= u && u <= 0x0D) || u == 0x20 || u == 0x85 || u == 0xA0 || u == 0x1680 || (0x2000 <= u
        && u <= 0x200A) || u == 0x2028 || u == 0x2029 || u == 0x202F || u == 0x205F || u == 0x3000
}

/// Whether `w` is a word: not empty, and free of white space.
pub open spec fn is_word(w: Seq<char>) -> bool {
    &&& w.len() > 0
    &&& forall|j: int| 0 <= j < w.len() ==> !is_space(#[trigger] w[j])
}

/// The words of `s`: its maximal runs of characters that are not white space,
/// in the order in which they stand in `s`.
pub open spec fn words(s: Seq<char>) -> Seq<Seq<char>>
    decreases s.len(),
{
    if s.len() == 0 {
        Seq::empty()
    } else {
        let before = words(s.drop_last());
        let c = s.last();
        if is_space(c) {
            before
        } else if s.len() >= 2 && !is_space(s[s.len() - 2]) {
            before.drop_last().push(before.last().push(c))
        } else {
            before.push(seq![c])
        }
    }
}

/// The given words in a row, with one space between neighbours.
pub open spec fn join(ws: Seq<Seq<char>>) -> Seq<char>
    decreases ws.len(),
{
    if ws.len() == 0 {
        Seq::empty()
    } else if ws.len() == 1 {
        ws[0]
    } else {
        join(ws.drop_last()) + seq![' '] + ws.last()
    }
}

/// The normal form of `s`: its words, separated by single spaces, with nothing
/// before the first word and nothing after the last.
pub open spec fn normalize(s: Seq<char>) -> Seq<char> {
    join(words(s))
}

/// Every element of `words(s)` is a word, there are no more of them than
/// characters in `s`, and there is at least one when `s` ends in a character
/// that is not white space.
pub proof fn lemma_words_are_words(s: Seq<char>)
    ensures
        forall|i: int| 0 <= i < words(s).len() ==> is_word(#[trigger] words(s)[i]),
        words(s).len() <= s.len(),
        s.len() > 0 && !is_space(s.last()) ==> words(s).len() > 0,
    decreases s.len(),
{
    if s.len() > 0 {
        lemma_words_are_words(s.drop_last());
        let before = words(s.drop_last());
        let c = s.last();
        if !is_space(c) {
            if s.len() >= 2 && !is_space(s[s.len() - 2]) {
                assert(s.drop_last().last() == s[s.len() - 2]);
                let grown = before.last().push(c);
                assert(is_word(before.last()));
                assert(is_word(grown)) by {
                    assert forall|j: int| 0 <= j < grown.len() implies !is_space(
                        #[trigger] grown[j],
                    ) by {
                        if j < before.last().len() {
                            assert(grown[j] == before.last()[j]);
                        }
                    }
                }
                let after = before.drop_last().push(grown);
                assert forall|i: int| 0 <= i < after.len() implies is_word(#[trigger] after[i]) by {
                    if i < after.len() - 1 {
                        assert(after[i] == before[i]);
                    }
                }
            } else {
                let after = before.push(seq![c]);
                assert forall|i: int| 0 <= i < after.len() implies is_word(#[trigger] after[i]) by {
                    if i < after.len() - 1 {
                        assert(after[i] == before[i]);
                    }
                }
            }
        }
    }
}

/// Appending a character that is not white space to a text that ends in one
/// appends it to the normal form.
pub proof fn lemma_normalize_grow(s: Seq<char>)
    requires
        s.len() >= 2,
        !is_space(s.last()),
        !is_space(s[s.len() - 2]),
    ensures
        normalize(s) == normalize(s.drop_last()).push(s.last()),
{
    let init = s.drop_last();
    assert(init.last() == s[s.len() - 2]);
    lemma_words_are_words(init);
    let before = words(init);
    let after = before.drop_last().push(before.last().push(s.last()));
    assert(words(s) == after);
    assert(after.drop_last() == before.drop_last());
    if before.len() == 1 {
        assert(join(after) == before.last().push(s.last()));
    } else {
        assert(join(after) == join(before.drop_last()) + seq![' '] + before.last().push(s.last()));
        assert(join(before) == join(before.drop_last()) + seq![' '] + before.last());
    }
}

/// Appending a character that is not white space to a text that is empty or
/// ends in white space starts a new word in the normal form.
pub proof fn lemma_normalize_start(s: Seq<char>)
    requires
        s.len() >= 1,
        !is_space(s.last()),
        s.len() >= 2 ==> is_space(s[s.len() - 2]),
    ensures
        normalize(s) == if words(s.drop_last()).len() == 0 {
            seq![s.last()]
        } else {
            normalize(s.drop_last()).push(' ').push(s.last())
        },
{
    let before = words(s.drop_last());
    let after = before.push(seq![s.last()]);
    assert(words(s) == after);
    assert(after.drop_last() == before);
    if before.len() > 0 {
        assert(join(after) == join(before) + seq![' '] + seq![s.last()]);
    }
}

/// Whether `n` has the shape of a normal form: it neither begins nor ends
/// with white space, and the only white space in it are single spaces, each
/// between two characters that are not white space.
pub open spec fn is_tidy(n: Seq<char>) -> bool {
    &&& n.len() > 0 ==> !is_space(n[0]) && !is_space(n.last())
    &&& forall|i: int|
        0 <= i < n.len() && is_space(#[trigger] n[i]) ==> {
            &&& n[i] == ' '
            &&& 0 < i < n.len() - 1
            &&& !is_space(n[i - 1])
            &&& !is_space(n[i + 1])
        }
}

/// Words joined by single spaces have the shape of a normal form.
pub proof fn lemma_join_is_tidy(ws: Seq<Seq<char>>)
    requires
        forall|i: int| 0 <= i < ws.len() ==> is_word(#[trigger] ws[i]),
    ensures
        is_tidy(join(ws)),
        ws.len() > 0 ==> join(ws).len() > 0,
    decreases ws.len(),
{
    if ws.len() == 1 {
        assert(is_word(ws[0]));
    } else if ws.len() > 1 {
        let front = ws.drop_last();
        let last = ws.last();
        assert forall|i: int| 0 <= i < front.len() implies is_word(#[trigger] front[i]) by {
            assert(front[i] == ws[i]);
        }
        lemma_join_is_tidy(front);
        assert(is_word(last));
        let head = join(front);
        let whole = join(ws);
        assert(whole == head + seq![' '] + last);
        assert forall|i: int| 0 <= i < whole.len() && is_space(#[trigger] whole[i]) implies {
            &&& whole[i] == ' '
            &&& 0 < i < whole.len() - 1
            &&& !is_space(whole[i - 1])
            &&& !is_space(whole[i + 1])
        } by {
            if i < head.len() {
                assert(whole[i] == head[i]);
                assert(whole[i - 1] == head[i - 1]);
                assert(whole[i + 1] == head[i + 1]);
            } else if i == head.len() {
                assert(whole[i - 1] == head.last());
                assert(whole[i + 1] == last[0]);
            } else {
                assert(whole[i] == last[i - head.len() - 1]);
            }
        }
        assert(whole[0] == head[0]);
        assert(whole.last() == last.last());
    }
}

/// A normal form has the shape of one: no white space at either end, and
/// single spaces between its words.
pub proof fn lemma_normal_form_is_tidy(s: Seq<char>)
    ensures
        is_tidy(normalize(s)),
{
    lemma_words_are_words(s);
    lemma_join_is_tidy(words(s));
}

/// A word has exactly one word: itself.
pub proof fn lemma_words_of_word(w: Seq<char>)
    requires
        is_word(w),
    ensures
        words(w) == seq![w],
    decreases w.len(),
{
    let init = w.drop_last();
    if w.len() == 1 {
        assert(words(init) == Seq::<Seq<char>>::empty());
        assert(seq![w.last()] == w);
    } else {
        assert(is_word(init)) by {
            assert forall|j: int| 0 <= j < init.len() implies !is_space(#[trigger] init[j]) by {
                assert(init[j] == w[j]);
            }
        }
        lemma_words_of_word(init);
        assert(!is_space(w[w.len() - 2]));
        assert(init.push(w.last()) == w);
        assert(seq![init].drop_last().push(w) == seq![w]);
    }
}

/// A word that follows a space is a word of its own, after the words of what
/// stands before the space.
pub proof fn lemma_words_after_space(t: Seq<char>, w: Seq<char>)
    requires
        is_word(w),
    ensures
        words(t + seq![' '] + w) == words(t).push(w),
    decreases w.len(),
{
    let s = t + seq![' '] + w;
    let init = w.drop_last();
    let head = t + seq![' '];
    assert(s.last() == w.last());
    assert(!is_space(w[w.len() - 1]));
    if w.len() == 1 {
        assert(s.drop_last() == head);
        assert(head.drop_last() == t);
        assert(head.last() == ' ');
        assert(words(head) == words(t));
        assert(s[s.len() - 2] == ' ');
        assert(words(s) == words(head).push(seq![s.last()]));
        assert(seq![w.last()] == w);
    } else {
        assert(s.drop_last() == head + init);
        assert(is_word(init)) by {
            assert forall|j: int| 0 <= j < init.len() implies !is_space(#[trigger] init[j]) by {
                assert(init[j] == w[j]);
            }
        }
        lemma_words_after_space(t, init);
        let before = words(s.drop_last());
        assert(before == words(t).push(init));
        assert(s[s.len() - 2] == w[w.len() - 2]);
        assert(words(s) == before.drop_last().push(before.last().push(s.last())));
        assert(init.push(w.last()) == w);
        assert(before.drop_last() == words(t));
    }
}

/// Splitting joined words gives the same words back.
pub proof fn lemma_words_of_join(ws: Seq<Seq<char>>)
    requires
        forall|i: int| 0 <= i < ws.len() ==> is_word(#[trigger] ws[i]),
    ensures
        words(join(ws)) == ws,
    decreases ws.len(),
{
    if ws.len() == 0 {
    } else if ws.len() == 1 {
        lemma_words_of_word(ws[0]);
        assert(seq![ws[0]] == ws);
    } else {
        let front = ws.drop_last();
        assert forall|i: int| 0 <= i < front.len() implies is_word(#[trigger] front[i]) by {
            assert(front[i] == ws[i]);
        }
        lemma_words_of_join(front);
        lemma_words_after_space(join(front), ws.last());
        assert(front.push(ws.last()) == ws);
    }
}

/// A normal form has the words of the text it was made from.
pub proof fn lemma_words_of_normal_form(s: Seq<char>)
    ensures
        words(normalize(s)) == words(s),
{
    lemma_words_are_words(s);
    lemma_words_of_join(words(s));
}

/// Normalising is idempotent: a normal form is its own normal form.
pub proof fn lemma_normalize_idempotent(s: Seq<char>)
    ensures
        normalize(normalize(s)) == normalize(s),
{
    lemma_words_of_normal_form(s);
}

/// Where a text is cut at white space, or at either end, its words are the
/// words of the part before the cut followed by those of the part after it.
pub proof fn lemma_words_of_parts(before: Seq<char>, after: Seq<char>)
    requires
        before.len() == 0 || is_space(before.last()),
    ensures
        words(before + after) == words(before) + words(after),
    decreases after.len(),
{
    let whole = before + after;
    if after.len() == 0 {
        assert(whole == before);
        assert(words(before) + Seq::<Seq<char>>::empty() == words(before));
    } else {
        let init = after.drop_last();
        let c = after.last();
        assert(whole.drop_last() == before + init);
        assert(whole.last() == c);
        lemma_words_of_parts(before, init);
        let left = words(before);
        let seen = words(before + init);
        if is_space(c) {
        } else if init.len() == 0 {
            assert(before + init == before);
            if before.len() > 0 {
                assert(whole[whole.len() - 2] == before.last());
            }
            assert(words(after) == seq![seq![c]]);
            assert(left.push(seq![c]) == left + seq![seq![c]]);
        } else {
            assert(whole[whole.len() - 2] == init.last());
            assert(after[after.len() - 2] == init.last());
            if is_space(init.last()) {
                assert((left + words(init)).push(seq![c]) == left + words(init).push(seq![c]));
            } else {
                lemma_words_are_words(init);
                let right = words(init);
                assert(seen.last() == right.last());
                assert(seen.drop_last() == left + right.drop_last());
                assert((left + right.drop_last()).push(right.last().push(c)) == left
                    + right.drop_last().push(right.last().push(c)));
            }
        }
    }
}

/// Normalises white space: the words of `text`, separated by single spaces.
pub fn clean_text(text: &str) -> (cleaned: String)
    ensures
        cleaned@ == normalize(text@),
{
    broadcast use vstd::string::group_string_axioms;

    let mut cleaned = String::new();
    let mut in_word = false;
    let mut started = false;
    for c in iter: text.chars()
        invariant
            iter.seq() == text@,
            cleaned@ == normalize(text@.take(iter.index() as int)),
            in_word == (iter.index() > 0 && !is_space(text@[iter.index() - 1])),
            started == (words(text@.take(iter.index() as int)).len() > 0),
    {
        let ghost seen = text@.take(iter.index() + 1);
        proof {
            assert(seen.drop_last() == text@.take(iter.index() as int));
            assert(seen.last() == c);
        }
        if is_whitespace(c) {
            in_word = false;
        } else {
            if in_word {
                proof {
                    lemma_normalize_grow(seen);
                }
            } else {
                proof {
                    lemma_normalize_start(seen);
                }
                if started {
                    cleaned.push(' ');
                }
                started = true;
            }
            cleaned.push(c);
            in_word = true;
            proof {
                lemma_words_are_words(seen);
            }
        }
    }
    proof {
        assert(text@.take(text@.len() as int) == text@);
    }
    cleaned
}

/// The number of words in `text`.
pub fn word_count(text: &str) -> (count: usize)
    ensures
        count == words(text@).len(),
{
    broadcast use vstd::string::group_string_axioms;

    let length = text.unicode_len();
    let mut count: usize = 0;
    let mut in_word = false;
    for c in iter: text.chars()
        invariant
            iter.seq() == text@,
            length == text@.len(),
            count == words(text@.take(iter.index() as int)).len(),
            in_word == (iter.index() > 0 && !is_space(text@[iter.index() - 1])),
    {
        let ghost seen = text@.take(iter.index() + 1);
        proof {
            assert(seen.drop_last() == text@.take(iter.index() as int));
            assert(seen.last() == c);
            lemma_words_are_words(seen);
            lemma_words_are_words(seen.drop_last());
        }
        if is_whitespace(c) {
            in_word = false;
        } else {
            if !in_word {
                count = count + 1;
            }
            in_word = true;
        }
    }
    proof {
        assert(text@.take(text@.len() as int) == text@);
    }
    count
}

} // verus!
