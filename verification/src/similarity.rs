//! Lexical overlap between a query and a text.

use vstd::prelude::*;
use crate::text::{
    chars_eq, contains, contains_chars, lower_chars, lowercase, split_words, texts, words,
};
use crate::ratio::Ratio;

verus! {

/// How many of the first `n` words of `query_words` occur somewhere in `hay`.
pub open spec fn substring_hits(query_words: Seq<Seq<char>>, hay: Seq<char>, n: int) -> nat
    decreases n,
{
    if n <= 0 {
        0
    } else {
        substring_hits(query_words, hay, n - 1) + if contains(hay, query_words[n - 1]) {
            1nat
        } else {
            0nat
        }
    }
}

/// How many of the first `n` words of `query_words` are among `other_words`.
pub open spec fn word_hits(query_words: Seq<Seq<char>>, other_words: Seq<Seq<char>>, n: int) -> nat
    decreases n,
{
    if n <= 0 {
        0
    } else {
        word_hits(query_words, other_words, n - 1) + if other_words.contains(query_words[n - 1]) {
            1nat
        } else {
            0nat
        }
    }
}

/// The words of a text once it is put in lower case.
pub open spec fn lower_words(s: Seq<char>) -> Seq<Seq<char>> {
    words(lowercase(s))
}

/// How many words of the query occur in the content, both in lower case.
pub open spec fn text_matches(query: Seq<char>, content: Seq<char>) -> nat {
    substring_hits(lower_words(query), lowercase(content), lower_words(query).len() as int)
}

/// How many words of the query are words of the candidate, both in lower case.
pub open spec fn word_matches(query: Seq<char>, candidate: Seq<char>) -> nat {
    word_hits(lower_words(query), lower_words(candidate), lower_words(query).len() as int)
}

/// The share `hits / total` of the query's words that were found, which is
/// zero for a query without words.
pub open spec fn overlap(hits: nat, total: nat) -> Ratio {
    Ratio { num: hits as u64, den: if total == 0 { 1 } else { total as u64 } }
}

/// No more words are found than there are.
pub proof fn lemma_word_hits_bound(query_words: Seq<Seq<char>>, other: Seq<Seq<char>>, n: int)
    requires
        0 <= n,
    ensures
        word_hits(query_words, other, n) <= n,
    decreases n,
{
    if n > 0 {
        lemma_word_hits_bound(query_words, other, n - 1);
    }
}

/// Where every one of the first `n` words occurs in `hay`, all `n` are hits.
pub proof fn lemma_all_found(query_words: Seq<Seq<char>>, hay: Seq<char>, n: int)
    requires
        0 <= n <= query_words.len(),
        forall|k: int| 0 <= k < n ==> contains(hay, #[trigger] query_words[k]),
    ensures
        substring_hits(query_words, hay, n) == n,
    decreases n,
{
    if n > 0 {
        lemma_all_found(query_words, hay, n - 1);
    }
}

/// Where none of the first `n` words occurs in `hay`, there is no hit.
pub proof fn lemma_none_found(query_words: Seq<Seq<char>>, hay: Seq<char>, n: int)
    requires
        0 <= n <= query_words.len(),
        forall|k: int| 0 <= k < n ==> !contains(hay, #[trigger] query_words[k]),
    ensures
        substring_hits(query_words, hay, n) == 0,
    decreases n,
{
    if n > 0 {
        lemma_none_found(query_words, hay, n - 1);
    }
}

/// The words of `s` in lower case.
pub fn lower_word_list(s: &str) -> (r: Vec<Vec<char>>)
    ensures
        texts(r@) == lower_words(s@),
{
    let l = lower_chars(s);
    split_words(&l)
}

/// Whether `w` is one of the texts of `list`.
pub fn list_contains(list: &Vec<Vec<char>>, w: &Vec<char>) -> (r: bool)
    ensures
        r == texts(list@).contains(w@),
{
    let mut i: usize = 0;
    while i < list.len()
        invariant
            i <= list.len(),
            forall|k: int| 0 <= k < i ==> texts(list@)[k] != w@,
        decreases list.len() - i,
    {
        if chars_eq(&list[i], w) {
            assert(texts(list@)[i as int] == w@);
            return true;
        }
        i = i + 1;
    }
    false
}

/// How many of `query_words` occur somewhere in `hay`.
pub fn count_substring_hits(query_words: &Vec<Vec<char>>, hay: &Vec<char>) -> (r: usize)
    ensures
        r == substring_hits(texts(query_words@), hay@, query_words@.len() as int),
        r <= query_words@.len(),
{
    let mut hits: usize = 0;
    let mut i: usize = 0;
    while i < query_words.len()
        invariant
            i <= query_words.len(),
            hits <= i,
            hits == substring_hits(texts(query_words@), hay@, i as int),
        decreases query_words.len() - i,
    {
        if contains_chars(hay, &query_words[i]) {
            hits = hits + 1;
        }
        i = i + 1;
    }
    hits
}

/// How many of `query_words` are among `other_words`.
pub fn count_word_hits(query_words: &Vec<Vec<char>>, other_words: &Vec<Vec<char>>) -> (r: usize)
    ensures
        r == word_hits(texts(query_words@), texts(other_words@), query_words@.len() as int),
        r <= query_words@.len(),
{
    let mut hits: usize = 0;
    let mut i: usize = 0;
    while i < query_words.len()
        invariant
            i <= query_words.len(),
            hits <= i,
            hits == word_hits(texts(query_words@), texts(other_words@), i as int),
        decreases query_words.len() - i,
    {
        if list_contains(other_words, &query_words[i]) {
            hits = hits + 1;
        }
        i = i + 1;
    }
    hits
}

/// The share of the query's words found, as an exact fraction.
pub fn overlap_ratio(hits: usize, total: usize) -> (r: Ratio)
    ensures
        r == overlap(hits as nat, total as nat),
        r.valid(),
{
    Ratio { num: hits as u64, den: if total == 0 { 1 } else { total as u64 } }
}

/// The share of the words of `query` that occur in `content`, without regard
/// to case.
pub fn text_similarity(query: &str, content: &str) -> (r: Ratio)
    ensures
        r == overlap(text_matches(query@, content@), lower_words(query@).len()),
        r.unit(),
{
    let query_words = lower_word_list(query);
    let hay = lower_chars(content);
    let hits = count_substring_hits(&query_words, &hay);
    overlap_ratio(hits, query_words.len())
}

/// The share of the words of `query` that are words of `candidate`, without
/// regard to case.
pub fn calculate_similarity(query: &str, candidate: &str) -> (r: Ratio)
    ensures
        r == overlap(word_matches(query@, candidate@), lower_words(query@).len()),
        r.unit(),
{
    let query_words = lower_word_list(query);
    let other = lower_word_list(candidate);
    let hits = count_word_hits(&query_words, &other);
    overlap_ratio(hits, query_words.len())
}

} // verus!
