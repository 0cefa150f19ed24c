//! The hash embedder: the features of a text.
//!
//! A text is put in lower case and cut into words. Every word gives three
//! features, whose places in the embedding are taken from three parts of the
//! hash of the word and whose weights fall with the position of the word.
//! Every pair of neighbouring words gives one more feature with a fixed
//! weight. An embedding is the sum of the weights at each place, scaled to
//! unit length.

use vstd::prelude::*;
use crate::ratio::Ratio;
use crate::similarity::{lower_word_list, lower_words};
use crate::store::EMBEDDING_DIMENSION;
use crate::text::{extend_chars, string_of, texts};

verus! {

/// The hash of the text `s`, as the standard library's `DefaultHasher`,
/// freshly made, gives it after the text is fed to it as a string. The
/// standard library promises the same hash for the same text within one
/// release of it, not across releases: embeddings that another build of
/// the program has kept may place their features elsewhere.
pub uninterp spec fn default_hash(s: Seq<char>) -> u64;

/// Feeds `s` to a `DefaultHasher` made by `DefaultHasher::new`, through the
/// `Hash` implementation of `str`, and returns what `Hasher::finish` gives.
/// The contract only gives the hash its name.
#[verifier::external_body]
pub(crate) fn hash_text(s: &str) -> (h: u64)
    ensures
        h == default_hash(s@),
{
    let mut hasher = std::collections::hash_map::DefaultHasher::new();
    std::hash::Hash::hash(s, &mut hasher);
    std::hash::Hasher::finish(&hasher)
}

/// What a feature stands for, which decides its weight.
#[derive(Clone, Copy, Debug, PartialEq, Eq, Structural)]
pub enum FeatureKind {
    /// The first place of a word: weight `1 / (1 + position)`.
    Primary,
    /// The second place of a word: seven tenths of the primary weight.
    Secondary,
    /// The third place of a word: half of the primary weight.
    Tertiary,
    /// The place of a pair of neighbouring words: weight eight tenths.
    Bigram,
}

/// One contribution to an embedding.
#[derive(Clone, Copy, Debug, PartialEq, Eq, Structural)]
pub struct Feature {
    /// The place in the embedding that the feature adds to.
    pub index: usize,
    /// The position of the word, or of the first word of the pair.
    pub position: usize,
    /// What the feature stands for.
    pub kind: FeatureKind,
}

/// The weight of a feature, as an exact fraction. The weight of a word at
/// a position beyond what a fraction can hold is taken as zero.
pub open spec fn weight_of(f: Feature) -> Ratio {
    if f.kind == FeatureKind::Bigram {
        Ratio { num: 8, den: 10 }
    } else if 10 * (f.position + 1) > u64::MAX {
        Ratio { num: 0, den: 1 }
    } else {
        Ratio {
            num: match f.kind {
                FeatureKind::Primary => 10,
                FeatureKind::Secondary => 7,
                _ => 5,
            },
            den: (10 * (f.position + 1)) as u64,
        }
    }
}

/// The three features of a word with the hash `h` at position `p`: their
/// places are the hash, the hash without its lowest sixteen bits, and the
/// hash without its lowest thirty-two bits, each taken modulo the dimension.
pub open spec fn word_places(h: u64, p: nat) -> Seq<Feature> {
    seq![
        Feature {
            index: (h % (EMBEDDING_DIMENSION as u64)) as usize,
            position: p as usize,
            kind: FeatureKind::Primary,
        },
        Feature {
            index: ((h >> 16) % (EMBEDDING_DIMENSION as u64)) as usize,
            position: p as usize,
            kind: FeatureKind::Secondary,
        },
        Feature {
            index: ((h >> 32) % (EMBEDDING_DIMENSION as u64)) as usize,
            position: p as usize,
            kind: FeatureKind::Tertiary,
        },
    ]
}

/// The feature of a pair of neighbouring words with the hash `h`, the first
/// of them at position `p`.
pub open spec fn pair_place(h: u64, p: nat) -> Feature {
    Feature {
        index: (h % (EMBEDDING_DIMENSION as u64)) as usize,
        position: p as usize,
        kind: FeatureKind::Bigram,
    }
}

/// The three features of the word `w` at position `p`.
pub open spec fn features_of_word(w: Seq<char>, p: nat) -> Seq<Feature> {
    word_places(default_hash(w), p)
}

/// The features of the first `n` words.
pub open spec fn word_features(words: Seq<Seq<char>>, n: int) -> Seq<Feature>
    decreases n,
{
    if n <= 0 {
        Seq::empty()
    } else {
        word_features(words, n - 1) + features_of_word(words[n - 1], (n - 1) as nat)
    }
}

/// The pair of two neighbouring words, as one text.
pub open spec fn pair_of(a: Seq<char>, b: Seq<char>) -> Seq<char> {
    a + seq![' '] + b
}

/// The features of the first `n` pairs of neighbouring words.
pub open spec fn bigram_features(words: Seq<Seq<char>>, n: int) -> Seq<Feature>
    decreases n,
{
    if n <= 0 {
        Seq::empty()
    } else {
        bigram_features(words, n - 1).push(
            pair_place(default_hash(pair_of(words[n - 1], words[n])), (n - 1) as nat),
        )
    }
}

/// The features of a text: those of its words in lower case, in order, and
/// then those of the pairs of neighbouring words.
pub open spec fn features(text: Seq<char>) -> Seq<Feature> {
    let words = lower_words(text);
    word_features(words, words.len() as int) + bigram_features(words, words.len() - 1)
}

/// Every feature of the first `n` words has its place within the embedding.
pub proof fn lemma_word_features_in_range(words: Seq<Seq<char>>, n: int, k: int)
    requires
        0 <= k < word_features(words, n).len(),
    ensures
        word_features(words, n)[k].index < EMBEDDING_DIMENSION,
    decreases n,
{
    if n > 0 {
        let before = word_features(words, n - 1);
        if k < before.len() {
            lemma_word_features_in_range(words, n - 1, k);
        }
    }
}

/// Every feature of the first `n` pairs has its place within the embedding.
pub proof fn lemma_bigram_features_in_range(words: Seq<Seq<char>>, n: int, k: int)
    requires
        0 <= k < bigram_features(words, n).len(),
    ensures
        bigram_features(words, n)[k].index < EMBEDDING_DIMENSION,
    decreases n,
{
    if n > 0 {
        let before = bigram_features(words, n - 1);
        if k < before.len() {
            lemma_bigram_features_in_range(words, n - 1, k);
        }
    }
}

/// Every feature of a text has its place within the embedding.
pub proof fn lemma_features_in_range(text: Seq<char>, k: int)
    requires
        0 <= k < features(text).len(),
    ensures
        features(text)[k].index < EMBEDDING_DIMENSION,
{
    let words = lower_words(text);
    let first = word_features(words, words.len() as int);
    if k < first.len() {
        lemma_word_features_in_range(words, words.len() as int, k);
    } else {
        lemma_bigram_features_in_range(words, words.len() - 1, k - first.len());
    }
}

/// Appends the three features of a word with the hash `h` at `position`.
pub fn push_word_features(r: &mut Vec<Feature>, h: u64, position: usize)
    ensures
        final(r)@ == old(r)@ + word_places(h, position as nat),
{
    r.push(
        Feature {
            index: (h % (EMBEDDING_DIMENSION as u64)) as usize,
            position,
            kind: FeatureKind::Primary,
        },
    );
    r.push(
        Feature {
            index: ((h >> 16) % (EMBEDDING_DIMENSION as u64)) as usize,
            position,
            kind: FeatureKind::Secondary,
        },
    );
    r.push(
        Feature {
            index: ((h >> 32) % (EMBEDDING_DIMENSION as u64)) as usize,
            position,
            kind: FeatureKind::Tertiary,
        },
    );
    assert(r@ =~= old(r)@ + word_places(h, position as nat));
}

/// The feature of a pair of neighbouring words with the hash `h`, the first
/// of them at `position`.
pub fn pair_feature(h: u64, position: usize) -> (f: Feature)
    ensures
        f == pair_place(h, position as nat),
        f.index < EMBEDDING_DIMENSION,
{
    Feature {
        index: (h % (EMBEDDING_DIMENSION as u64)) as usize,
        position,
        kind: FeatureKind::Bigram,
    }
}

/// The features of `text`, from which its embedding is summed.
pub fn embedding_features(text: &str) -> (r: Vec<Feature>)
    ensures
        r@ == features(text@),
        forall|k: int| 0 <= k < r@.len() ==> (#[trigger] r@[k]).index < EMBEDDING_DIMENSION,
{
    let words = lower_word_list(text);
    let ghost ws = lower_words(text@);
    let mut r: Vec<Feature> = Vec::new();
    let mut i: usize = 0;
    while i < words.len()
        invariant
            i <= words.len(),
            texts(words@) == ws,
            r@ == word_features(ws, i as int),
        decreases words.len() - i,
    {
        let w = string_of(&words[i]);
        let h = hash_text(w.as_str());
        push_word_features(&mut r, h, i);
        i = i + 1;
    }
    let ghost first = r@;
    let mut j: usize = 0;
    while words.len() > 0 && j < words.len() - 1
        invariant
            j <= words.len(),
            words.len() > 0 ==> j <= words.len() - 1,
            words.len() == 0 ==> j == 0,
            texts(words@) == ws,
            r@ == first + bigram_features(ws, j as int),
        decreases words.len() - j,
    {
        let mut pair: Vec<char> = Vec::new();
        extend_chars(&mut pair, &words[j]);
        pair.push(' ');
        extend_chars(&mut pair, &words[j + 1]);
        assert(pair@ =~= pair_of(ws[j as int], ws[j + 1]));
        let p = string_of(&pair);
        let h = hash_text(p.as_str());
        r.push(pair_feature(h, j));
        j = j + 1;
    }
    proof {
        assert forall|k: int| 0 <= k < r@.len() implies (#[trigger] r@[k]).index
            < EMBEDDING_DIMENSION by {
            lemma_features_in_range(text@, k);
        }
    }
    r
}

/// The weight of a feature, as an exact fraction.
pub fn feature_weight(f: &Feature) -> (r: Ratio)
    ensures
        r == weight_of(*f),
        r.valid(),
{
    match f.kind {
        FeatureKind::Bigram => Ratio { num: 8, den: 10 },
        kind => {
            if f.position as u64 > (u64::MAX - 10) / 10 {
                Ratio { num: 0, den: 1 }
            } else {
                let den: u64 = 10 * ((f.position as u64) + 1);
                match kind {
                    FeatureKind::Primary => Ratio { num: 10, den },
                    FeatureKind::Secondary => Ratio { num: 7, den },
                    _ => Ratio { num: 5, den },
                }
            }
        },
    }
}

} // verus!
