//! Titles for chats, made without a model: the first words of the first line
//! of a message.

use vstd::prelude::*;
use vstd::string::StringExecFns;
use crate::strings::{chars_of, text_of};
use crate::text::{
    is_space, is_whitespace, join, lemma_words_are_words, lemma_words_of_parts, words,
};

verus! {

/// The most words that a title takes from a message.
pub const MAX_TITLE_WORDS: usize = 6;

/// Whether `c` is a quotation mark that is taken off a title's ends.
pub open spec fn is_quote(c: char) -> bool {
    c == '"' || c == '\'' || c == '`'
}

/// Whether `c` is punctuation that is taken off a title's end.
pub open spec fn is_closing_mark(c: char) -> bool {
    c == ',' || c == '.' || c == '!' || c == '?' || c == ':' || c == ';' || c == '\u{2014}' || c
        == '-'
}

/// The first line of `s`: what stands before its first line feed.
pub open spec fn first_line(s: Seq<char>) -> Seq<char>
    decreases s.len(),
{
    if s.len() == 0 || s[0] == '\n' {
        Seq::empty()
    } else {
        seq![s[0]] + first_line(s.drop_first())
    }
}

/// `s` without the quotation marks at its start.
pub open spec fn without_leading_quotes(s: Seq<char>) -> Seq<char>
    decreases s.len(),
{
    if s.len() > 0 && is_quote(s[0]) {
        without_leading_quotes(s.drop_first())
    } else {
        s
    }
}

/// `s` without the quotation marks at its end.
pub open spec fn without_trailing_quotes(s: Seq<char>) -> Seq<char>
    decreases s.len(),
{
    if s.len() > 0 && is_quote(s.last()) {
        without_trailing_quotes(s.drop_last())
    } else {
        s
    }
}

/// `s` without the punctuation at its end.
pub open spec fn without_closing_marks(s: Seq<char>) -> Seq<char>
    decreases s.len(),
{
    if s.len() > 0 && is_closing_mark(s.last()) {
        without_closing_marks(s.drop_last())
    } else {
        s
    }
}

/// At most the first six of the words of `line`, single spaces between them.
pub open spec fn leading_words(line: Seq<char>) -> Seq<char> {
    if words(line).len() > MAX_TITLE_WORDS {
        join(words(line).take(MAX_TITLE_WORDS as int))
    } else {
        join(words(line))
    }
}

/// The title for a chat that begins with `message`: at most the first six
/// words of its first line, without quotation marks at either end and then
/// without punctuation at the end; `New Chat` where nothing is left.
pub open spec fn chat_title_text(message: Seq<char>) -> Seq<char> {
    let quoted = leading_words(first_line(message));
    let title = without_closing_marks(without_trailing_quotes(without_leading_quotes(quoted)));
    if title.len() == 0 {
        "New Chat"@
    } else {
        title
    }
}

fn quote(c: char) -> (is: bool)
    ensures
        is == is_quote(c),
{
    c == '"' || c == '\'' || c == '`'
}

fn closing_mark(c: char) -> (is: bool)
    ensures
        is == is_closing_mark(c),
{
    c == ',' || c == '.' || c == '!' || c == '?' || c == ':' || c == ';' || c == '\u{2014}' || c
        == '-'
}

/// The length of the first line of `chars`.
fn first_line_length(chars: &Vec<char>) -> (length: usize)
    ensures
        length <= chars@.len(),
        chars@.take(length as int) == first_line(chars@),
{
    let mut length: usize = 0;
    proof {
        assert(chars@.skip(0) == chars@);
        assert(chars@.take(0) + first_line(chars@) == first_line(chars@));
    }
    while length < chars.len() && chars[length] != '\n'
        invariant
            length <= chars@.len(),
            first_line(chars@) == chars@.take(length as int) + first_line(
                chars@.skip(length as int),
            ),
        decreases chars@.len() - length,
    {
        proof {
            let rest = chars@.skip(length as int);
            assert(rest.drop_first() == chars@.skip(length + 1));
            assert(chars@.take(length as int) + seq![rest[0]] == chars@.take(length + 1));
            assert(first_line(rest) == seq![rest[0]] + first_line(rest.drop_first()));
        }
        length = length + 1;
    }
    proof {
        let rest = chars@.skip(length as int);
        assert(first_line(rest) == Seq::<char>::empty());
        assert(chars@.take(length as int) + Seq::<char>::empty() == chars@.take(length as int));
    }
    length
}

/// At most the first six of the words of `chars[..length]`, single spaces
/// between them.
fn leading_words_of(chars: &Vec<char>, length: usize) -> (kept: Vec<char>)
    requires
        length <= chars@.len(),
    ensures
        kept@ == leading_words(chars@.take(length as int)),
{
    let ghost line = chars@.take(length as int);
    let mut kept: Vec<char> = Vec::new();
    let mut in_word = false;
    let mut count: usize = 0;
    let mut at: usize = 0;
    while at < length
        invariant
            at <= length <= chars@.len(),
            line == chars@.take(length as int),
            count == words(line.take(at as int)).len(),
            count <= MAX_TITLE_WORDS,
            kept@ == join(words(line.take(at as int))),
            in_word == (at > 0 && !is_space(line[at - 1])),
        decreases length - at,
    {
        let c = chars[at];
        let ghost seen = line.take(at + 1);
        proof {
            assert(seen.drop_last() == line.take(at as int));
            assert(seen.last() == c);
            lemma_words_are_words(seen);
        }
        if is_whitespace(c) {
            in_word = false;
        } else {
            if in_word {
                proof {
                    crate::text::lemma_normalize_grow(seen);
                }
            } else {
                if count == MAX_TITLE_WORDS {
                    proof {
                        let before = line.take(at as int);
                        let after = line.skip(at as int);
                        assert(before + after == line);
                        lemma_words_of_parts(before, after);
                        lemma_has_a_word(after);
                        assert((words(before) + words(after)).take(MAX_TITLE_WORDS as int)
                            == words(before));
                    }
                    return kept;
                }
                proof {
                    crate::text::lemma_normalize_start(seen);
                }
                if count > 0 {
                    kept.push(' ');
                }
                count = count + 1;
            }
            kept.push(c);
            in_word = true;
        }
        at = at + 1;
    }
    proof {
        assert(line.take(length as int) == line);
    }
    kept
}

/// A text that begins with a character that is not white space has a word.
proof fn lemma_has_a_word(s: Seq<char>)
    requires
        s.len() > 0,
        !is_space(s[0]),
    ensures
        words(s).len() > 0,
    decreases s.len(),
{
    if s.len() > 1 {
        lemma_has_a_word(s.drop_last());
        lemma_words_are_words(s);
        lemma_words_are_words(s.drop_last());
    }
}

/// A title for a chat that begins with `message`.
pub fn chat_title(message: &str) -> (title: String)
    ensures
        title@ == chat_title_text(message@),
{
    let chars = chars_of(message);
    let length = first_line_length(&chars);
    let kept = leading_words_of(&chars, length);
    let mut start: usize = 0;
    proof {
        assert(kept@.skip(0) == kept@);
    }
    while start < kept.len() && quote(kept[start])
        invariant
            start <= kept@.len(),
            without_leading_quotes(kept@) == without_leading_quotes(kept@.skip(start as int)),
        decreases kept@.len() - start,
    {
        proof {
            assert(kept@.skip(start as int).drop_first() == kept@.skip(start + 1));
        }
        start = start + 1;
    }
    proof {
        assert(kept@.skip(start as int) == kept@.subrange(start as int, kept@.len() as int));
    }
    let mut end: usize = kept.len();
    while end > start && quote(kept[end - 1])
        invariant
            start <= end <= kept@.len(),
            without_trailing_quotes(without_leading_quotes(kept@)) == without_trailing_quotes(
                kept@.subrange(start as int, end as int),
            ),
        decreases end - start,
    {
        proof {
            assert(kept@.subrange(start as int, end as int).drop_last() == kept@.subrange(
                start as int,
                end - 1,
            ));
        }
        end = end - 1;
    }
    while end > start && closing_mark(kept[end - 1])
        invariant
            start <= end <= kept@.len(),
            without_closing_marks(without_trailing_quotes(without_leading_quotes(kept@)))
                == without_closing_marks(kept@.subrange(start as int, end as int)),
        decreases end - start,
    {
        proof {
            assert(kept@.subrange(start as int, end as int).drop_last() == kept@.subrange(
                start as int,
                end - 1,
            ));
        }
        end = end - 1;
    }
    if start == end {
        String::from_str("New Chat")
    } else {
        text_of(&kept, start, end)
    }
}

} // verus!
