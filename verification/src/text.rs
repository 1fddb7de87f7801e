//! Text as sequences of characters: equality and substring search.

use vstd::prelude::*;
use vstd::std_specs::iter::IteratorSpec;
use vstd::string::*;

verus! {

/// `word` stands in `text`, starting at position `at`.
pub open spec fn occurs_at(text: Seq<char>, word: Seq<char>, at: int) -> bool {
    &&& 0 <= at
    &&& at + word.len() <= text.len()
    &&& text.subrange(at, at + word.len()) == word
}

/// `word` stands somewhere in `text`. The empty word stands in every text.
pub open spec fn mentions(text: Seq<char>, word: Seq<char>) -> bool {
    exists|at: int| occurs_at(text, word, at)
}

/// Every text holds the empty word and itself.
pub proof fn lemma_mentions_empty_and_itself(text: Seq<char>)
    ensures
        mentions(text, Seq::empty()),
        mentions(text, text),
{
    assert(text.subrange(0, 0) =~= Seq::<char>::empty());
    assert(occurs_at(text, Seq::empty(), 0));
    assert(text.subrange(0, text.len() as int) =~= text);
    assert(occurs_at(text, text, 0));
}

/// A word stands in whatever is put together around it.
pub proof fn lemma_mentions_in_the_middle(before: Seq<char>, word: Seq<char>, after: Seq<char>)
    ensures
        mentions(before + word + after, word),
{
    let text = before + word + after;
    assert(text.subrange(before.len() as int, (before.len() + word.len()) as int) =~= word);
    assert(occurs_at(text, word, before.len() as int));
}

/// A text that holds a word holds whatever stands in that word.
pub proof fn lemma_mentions_is_transitive(text: Seq<char>, word: Seq<char>, part: Seq<char>)
    requires
        mentions(text, word),
        mentions(word, part),
    ensures
        mentions(text, part),
{
    let at = choose|at: int| occurs_at(text, word, at);
    let inner = choose|inner: int| occurs_at(word, part, inner);
    assert(text.subrange(at + inner, at + inner + part.len()) =~= text.subrange(
        at,
        at + word.len(),
    ).subrange(inner, inner + part.len()));
    assert(occurs_at(text, part, at + inner));
}

/// No text holds a word that is longer than itself.
pub proof fn lemma_mentions_nothing_longer(text: Seq<char>, word: Seq<char>)
    requires
        word.len() > text.len(),
    ensures
        !mentions(text, word),
{
}

/// The characters of a string, in order.
pub fn chars_of(s: &str) -> (chars: Vec<char>)
    ensures
        chars@ == s@,
{
    broadcast use group_string_axioms;

    let mut it = s.chars();
    let mut chars: Vec<char> = Vec::new();
    loop
        invariant
            it.obeys_prophetic_iter_laws(),
            it.decrease() is Some,
            chars@ + it.remaining() == s@,
        ensures
            chars@ == s@,
        decreases it.decrease()->0,
    {
        match it.next() {
            Some(c) => {
                chars.push(c);
            },
            None => {
                break ;
            },
        }
    }
    chars
}

/// Whether `word` stands in `text` at position `at`.
pub fn matches_at(text: &Vec<char>, word: &Vec<char>, at: usize) -> (found: bool)
    ensures
        found == occurs_at(text@, word@, at as int),
{
    if word.len() > text.len() || at > text.len() - word.len() {
        return false;
    }
    let mut i: usize = 0;
    while i < word.len()
        invariant
            i <= word.len(),
            at + word.len() <= text.len(),
            forall|j: int| 0 <= j < i ==> text@[at + j] == word@[j],
        decreases word.len() - i,
    {
        if text[at + i] != word[i] {
            proof {
                let window = text@.subrange(at as int, at + word.len());
                assert(window[i as int] == text@[at + i]);
            }
            return false;
        }
        i += 1;
    }
    assert(text@.subrange(at as int, at + word.len()) =~= word@);
    true
}

/// Whether `word` stands somewhere in `text`, as `str::contains` tells it.
pub fn contains(text: &str, word: &str) -> (found: bool)
    ensures
        found == mentions(text@, word@),
{
    let hay = chars_of(text);
    let needle = chars_of(word);
    if needle.len() > hay.len() {
        return false;
    }
    let last: usize = hay.len() - needle.len();
    let mut at: usize = 0;
    loop
        invariant
            hay@ == text@,
            needle@ == word@,
            last == hay.len() - needle.len(),
            at <= last,
            forall|k: int| 0 <= k < at ==> !occurs_at(hay@, needle@, k),
        decreases last - at,
    {
        if matches_at(&hay, &needle, at) {
            return true;
        }
        if at == last {
            return false;
        }
        at += 1;
    }
}

/// Whether two strings hold the same characters.
pub fn same_text(a: &str, b: &str) -> (same: bool)
    ensures
        same == (a@ == b@),
{
    let left = chars_of(a);
    let right = chars_of(b);
    if left.len() != right.len() {
        return false;
    }
    let same = matches_at(&left, &right, 0);
    assert(left@.subrange(0, right@.len() as int) =~= left@);
    same
}

} // verus!
