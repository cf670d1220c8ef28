//! The argument parser: from a message body to a command name and its raw
//! arguments.

use vstd::prelude::*;
use vstd::string::*;
use crate::text::{chars_of, is_space, is_space_char, texts};

verus! {

/// The length of the longest prefix of `s` that holds no white space.
pub open spec fn word_len(s: Seq<char>) -> nat
    decreases s.len(),
{
    if s.len() > 0 && !is_space(s[0]) {
        1 + word_len(s.drop_first())
    } else {
        0
    }
}

/// The words of `s`: its longest runs of characters that are no white space,
/// from left to right.
pub open spec fn split_whitespace(s: Seq<char>) -> Seq<Seq<char>>
    decreases s.len(),
    via split_whitespace_decreases
{
    if s.len() == 0 {
        Seq::empty()
    } else if is_space(s[0]) {
        split_whitespace(s.drop_first())
    } else {
        seq![s.take(word_len(s) as int)] + split_whitespace(s.skip(word_len(s) as int))
    }
}

#[via_fn]
proof fn split_whitespace_decreases(s: Seq<char>) {
    lemma_word_len_bounds(s);
}

/// The first word ends within the text, and is not empty where the text starts
/// with a character that is no white space.
pub proof fn lemma_word_len_bounds(s: Seq<char>)
    ensures
        word_len(s) <= s.len(),
        s.len() > 0 && !is_space(s[0]) ==> word_len(s) >= 1,
    decreases s.len(),
{
    if s.len() > 0 && !is_space(s[0]) {
        lemma_word_len_bounds(s.drop_first());
    }
}

/// Whether `s` holds no white space.
pub open spec fn space_free(s: Seq<char>) -> bool {
    forall|i: int| 0 <= i < s.len() ==> !is_space(#[trigger] s[i])
}

/// The first word of a text is free of white space, and ends at the text's
/// end or before white space.
pub proof fn lemma_word_len_stops_at_space(s: Seq<char>)
    ensures
        space_free(s.take(word_len(s) as int)),
        word_len(s) < s.len() ==> is_space(s[word_len(s) as int]),
    decreases s.len(),
{
    lemma_word_len_bounds(s);
    if s.len() > 0 && !is_space(s[0]) {
        let rest = s.drop_first();
        lemma_word_len_stops_at_space(rest);
        lemma_word_len_bounds(rest);
        let n = word_len(s) as int;
        assert forall|i: int| 0 <= i < n implies !is_space(#[trigger] s.take(n)[i]) by {
            if i > 0 {
                assert(rest.take(n - 1)[i - 1] == s[i]);
            }
        }
    }
}

/// Every word is a non-empty text without white space.
pub proof fn lemma_words_are_space_free(s: Seq<char>, k: int)
    requires
        0 <= k < split_whitespace(s).len(),
    ensures
        split_whitespace(s)[k].len() > 0,
        space_free(split_whitespace(s)[k]),
    decreases s.len(),
{
    lemma_word_len_bounds(s);
    if s.len() == 0 {
    } else if is_space(s[0]) {
        lemma_words_are_space_free(s.drop_first(), k);
    } else {
        let n = word_len(s) as int;
        if k == 0 {
            lemma_word_len_stops_at_space(s);
        } else {
            lemma_words_are_space_free(s.skip(n), k - 1);
        }
    }
}

/// A text without white space is its own first word.
pub proof fn lemma_word_len_of_space_free(s: Seq<char>)
    requires
        space_free(s),
    ensures
        word_len(s) == s.len(),
    decreases s.len(),
{
    if s.len() > 0 {
        lemma_word_len_of_space_free(s.drop_first());
    }
}

/// A non-empty text without white space splits into itself.
pub proof fn lemma_split_one_word(s: Seq<char>)
    requires
        s.len() > 0,
        space_free(s),
    ensures
        split_whitespace(s) == seq![s],
{
    lemma_word_len_of_space_free(s);
    assert(s.take(s.len() as int) =~= s);
    assert(split_whitespace(s.skip(s.len() as int)) =~= Seq::<Seq<char>>::empty());
}

/// White space ends the first word: what follows it does not matter.
pub proof fn lemma_word_len_before_space(a: Seq<char>, c: char, b: Seq<char>)
    requires
        is_space(c),
    ensures
        word_len(a.push(c) + b) == word_len(a),
    decreases a.len(),
{
    let s = a.push(c) + b;
    if a.len() > 0 && !is_space(a[0]) {
        assert(s.drop_first() =~= a.drop_first().push(c) + b);
        lemma_word_len_before_space(a.drop_first(), c, b);
    }
}

/// White space separates: the words of two texts with white space between
/// them are the words of the first, then those of the second.
pub proof fn lemma_split_around_space(a: Seq<char>, c: char, b: Seq<char>)
    requires
        is_space(c),
    ensures
        split_whitespace(a.push(c) + b) == split_whitespace(a) + split_whitespace(b),
    decreases a.len(),
{
    let s = a.push(c) + b;
    if a.len() == 0 {
        assert(s.drop_first() =~= b);
    } else if is_space(a[0]) {
        assert(s.drop_first() =~= a.drop_first().push(c) + b);
        lemma_split_around_space(a.drop_first(), c, b);
    } else {
        let n = word_len(a) as int;
        lemma_word_len_bounds(a);
        lemma_word_len_before_space(a, c, b);
        assert(s.take(n) =~= a.take(n));
        assert(s.skip(n) =~= a.skip(n).push(c) + b);
        lemma_split_around_space(a.skip(n), c, b);
    }
}

/// Whether every text of `words` is a word: not empty, and free of white
/// space.
pub open spec fn are_words(words: Seq<Seq<char>>) -> bool {
    forall|k: int| 0 <= k < words.len() ==> (#[trigger] words[k]).len() > 0 && space_free(words[k])
}

/// The texts of `words` in a row, one space between each two.
pub open spec fn join_words(words: Seq<Seq<char>>) -> Seq<char>
    decreases words.len(),
{
    if words.len() == 0 {
        Seq::empty()
    } else if words.len() == 1 {
        words[0]
    } else {
        join_words(words.drop_last()).push(' ') + words.last()
    }
}

/// Words that are joined by spaces are split into the same words again.
pub proof fn lemma_split_of_joined_words(words: Seq<Seq<char>>)
    requires
        are_words(words),
    ensures
        split_whitespace(join_words(words)) == words,
    decreases words.len(),
{
    if words.len() == 0 {
    } else if words.len() == 1 {
        lemma_split_one_word(words[0]);
    } else {
        let front = words.drop_last();
        lemma_split_of_joined_words(front);
        lemma_split_around_space(join_words(front), ' ', words.last());
        lemma_split_one_word(words.last());
    }
}

/// Splitting gives words, and nothing but the white space between them is
/// lost: joined by spaces, they split into themselves.
pub proof fn lemma_split_gives_words(s: Seq<char>)
    ensures
        are_words(split_whitespace(s)),
        split_whitespace(join_words(split_whitespace(s))) == split_whitespace(s),
{
    let words = split_whitespace(s);
    assert forall|k: int| 0 <= k < words.len() implies (#[trigger] words[k]).len() > 0
        && space_free(words[k]) by {
        lemma_words_are_space_free(s, k);
    }
    lemma_split_of_joined_words(words);
}

/// A parsed invocation: the command's name and its raw arguments, in order.
#[derive(Debug, Clone, PartialEq, Eq)]
pub struct ParsedInvocation {
    pub command_name: String,
    pub raw_args: Vec<String>,
}

/// What a parsed invocation stands for.
pub struct InvocationView {
    pub command_name: Seq<char>,
    pub raw_args: Seq<Seq<char>>,
}

impl View for ParsedInvocation {
    type V = InvocationView;

    open spec fn view(&self) -> InvocationView {
        InvocationView { command_name: self.command_name@, raw_args: texts(self.raw_args@) }
    }
}

/// What a message body parses to under `prefix`: nothing where the body does not
/// start with the prefix or holds no word after it; else the first word
/// after the prefix as the command's name and the other words as its arguments.
pub open spec fn spec_parse(body: Seq<char>, prefix: Seq<char>) -> Option<InvocationView> {
    if prefix.is_prefix_of(body) {
        let words = split_whitespace(body.skip(prefix.len() as int));
        if words.len() > 0 {
            Some(InvocationView { command_name: words[0], raw_args: words.drop_first() })
        } else {
            None
        }
    } else {
        None
    }
}

/// How far the word that starts at `from` reaches.
fn word_end(chars: &Vec<char>, from: usize) -> (end: usize)
    requires
        from < chars@.len(),
        !is_space(chars@[from as int]),
    ensures
        from < end <= chars@.len(),
        end - from == word_len(chars@.skip(from as int)),
{
    let n: usize = chars.len();
    let mut end: usize = from + 1;
    assert(chars@.skip(from as int).drop_first() =~= chars@.skip(from + 1));
    while end < n && !is_space_char(chars[end])
        invariant
            from < end <= n,
            n == chars@.len(),
            word_len(chars@.skip(from as int)) == (end - from) + word_len(chars@.skip(end as int)),
        decreases n - end,
    {
        assert(chars@.skip(end as int).drop_first() =~= chars@.skip(end + 1));
        end = end + 1;
    }
    end
}

/// Splits `s` at white space.
pub fn split_words(s: &str) -> (words: Vec<String>)
    ensures
        texts(words@) == split_whitespace(s@),
{
    let chars = chars_of(s);
    let n: usize = chars.len();
    let mut words: Vec<String> = Vec::new();
    let mut i: usize = 0;
    assert(s@.skip(0) =~= s@);
    while i < n
        invariant
            i <= n,
            n == chars@.len(),
            chars@ == s@,
            texts(words@) + split_whitespace(s@.skip(i as int)) == split_whitespace(s@),
        decreases n - i,
    {
        let ghost rest = s@.skip(i as int);
        if is_space_char(chars[i]) {
            assert(rest.drop_first() =~= s@.skip(i + 1));
            i = i + 1;
        } else {
            let end: usize = word_end(&chars, i);
            let word = String::from_str(s.substring_char(i, end));
            proof {
                assert(rest.take(end - i) =~= s@.subrange(i as int, end as int));
                assert(rest.skip(end - i) =~= s@.skip(end as int));
                assert(texts(words@).push(word@) + split_whitespace(s@.skip(end as int))
                    =~= texts(words@) + split_whitespace(rest));
            }
            words.push(word);
            i = end;
        }
    }
    words
}

/// Whether `body` starts with `prefix`.
pub fn starts_with(body: &Vec<char>, prefix: &Vec<char>) -> (r: bool)
    ensures
        r == prefix@.is_prefix_of(body@),
{
    if prefix.len() > body.len() {
        return false;
    }
    let mut i: usize = 0;
    while i < prefix.len()
        invariant
            i <= prefix@.len() <= body@.len(),
            forall|k: int| 0 <= k < i ==> prefix@[k] == body@[k],
        decreases prefix@.len() - i,
    {
        if prefix[i] != body[i] {
            return false;
        }
        i = i + 1;
    }
    true
}

/// Parses a message body under the configured prefix.
pub fn parse(body: &str, prefix: &str) -> (r: Option<ParsedInvocation>)
    ensures
        match r {
            Some(invocation) => spec_parse(body@, prefix@) == Some(invocation@),
            None => spec_parse(body@, prefix@) is None,
        },
{
    let body_chars = chars_of(body);
    let prefix_chars = chars_of(prefix);
    if !starts_with(&body_chars, &prefix_chars) {
        return None;
    }
    let rest = body.substring_char(prefix_chars.len(), body_chars.len());
    let mut words = split_words(rest);
    if words.len() == 0 {
        return None;
    }
    let ghost all = words@;
    let command_name = words.remove(0);
    assert(texts(words@) =~= texts(all).drop_first());
    Some(ParsedInvocation { command_name, raw_args: words })
}

} // verus!
