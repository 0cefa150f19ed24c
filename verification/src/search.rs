//! Similarity search over the store.
//!
//! Every stored chunk is scored against the query, chunks under the score
//! threshold are left out, and the rest is ranked by descending score, ties
//! in insertion order, and cut off after the requested number.

use vstd::prelude::*;
use crate::document::{ChunkModel, DocumentChunk};
use crate::ranking::{is_ranking, lemma_higher_key_first, rank};
use crate::ratio::Ratio;
use crate::similarity::{
    count_substring_hits, lemma_all_found, lemma_none_found, lower_word_list, lower_words,
    overlap, overlap_ratio, text_matches,
};
use crate::store::LocalVectorStore;
use crate::text::{contains, lower_chars, lowercase};

verus! {

/// How a search is bounded.
#[derive(Debug)]
pub struct SearchConfig {
    /// The largest number of results.
    pub top_k: usize,
    /// The least score a result may have; `None` admits every score.
    pub score_threshold: Option<Ratio>,
}

impl Default for SearchConfig {
    fn default() -> (c: Self)
        ensures
            c.top_k == 5,
            c.score_threshold == Some(Ratio { num: 7, den: 10 }),
    {
        SearchConfig { top_k: 5, score_threshold: Some(Ratio { num: 7, den: 10 }) }
    }
}

/// A search result: a copy of a stored chunk with its score and its
/// position in the store.
#[derive(Debug)]
pub struct ScoredChunk {
    pub chunk: DocumentChunk,
    pub score: Ratio,
    pub position: usize,
}

/// A stored chunk chosen by a ranking, with its position in the store.
#[derive(Debug)]
pub struct RankedChunk {
    pub chunk: DocumentChunk,
    pub position: usize,
}

/// The threshold admits the score.
pub open spec fn admits(threshold: Option<Ratio>, score: Ratio) -> bool {
    match threshold {
        None => true,
        Some(t) => score.ge(t),
    }
}

/// The lexical score of the query against a content.
pub open spec fn text_score(query: Seq<char>, content: Seq<char>) -> Ratio {
    overlap(text_matches(query, content), lower_words(query).len())
}

/// The ranking keys of lexical search: for each chunk, how many words of
/// the query its content holds.
pub open spec fn text_keys(docs: Seq<ChunkModel>, query: Seq<char>) -> Seq<u128> {
    Seq::new(docs.len(), |i: int| text_matches(query, docs[i].content) as u128)
}

/// Which chunks lexical search admits under the threshold.
pub open spec fn text_keep(docs: Seq<ChunkModel>, query: Seq<char>, threshold: Option<Ratio>) -> Seq<
    bool,
> {
    Seq::new(docs.len(), |i: int| admits(threshold, text_score(query, docs[i].content)))
}

/// The positions that the results name, in order.
pub open spec fn positions(r: Seq<ScoredChunk>) -> Seq<usize> {
    Seq::new(r.len(), |a: int| r[a].position)
}

/// The positions that the ranked chunks name, in order.
pub open spec fn ranked_positions(r: Seq<RankedChunk>) -> Seq<usize> {
    Seq::new(r.len(), |a: int| r[a].position)
}

impl LocalVectorStore {
    /// Lexical search: ranks the stored chunks by the share of the query's
    /// words that their content holds, without regard to case.
    pub fn search(&self, query: &str, config: &SearchConfig) -> (r: Vec<ScoredChunk>)
        requires
            self.well_formed(),
        ensures
            is_ranking(
                positions(r@),
                text_keys(self.model(), query@),
                text_keep(self.model(), query@, config.score_threshold),
                config.top_k as nat,
            ),
            forall|a: int|
                0 <= a < r@.len() ==> (#[trigger] r@[a]).position < self.model().len()
                    && r@[a].chunk@ == self.model()[r@[a].position as int] && r@[a].chunk.valid()
                    && r@[a].score == text_score(query@, r@[a].chunk@.content) && r@[a].score.num
                    == text_keys(self.model(), query@)[r@[a].position as int],
    {
        let docs = self.all();
        let query_words = lower_word_list(query);
        let mut keys: Vec<u128> = Vec::new();
        let mut keep: Vec<bool> = Vec::new();
        let mut scores: Vec<Ratio> = Vec::new();
        let mut i: usize = 0;
        while i < docs.len()
            invariant
                i <= docs.len(),
                docs@ == self.docs(),
                crate::text::texts(query_words@) == lower_words(query@),
                keys@.len() == i,
                keep@.len() == i,
                scores@.len() == i,
                forall|k: int| 0 <= k < i ==> #[trigger] keys@[k] == text_keys(self.model(), query@)[k],
                forall|k: int|
                    0 <= k < i ==> #[trigger] keep@[k] == text_keep(
                        self.model(),
                        query@,
                        config.score_threshold,
                    )[k],
                forall|k: int|
                    0 <= k < i ==> #[trigger] scores@[k] == text_score(
                        query@,
                        self.model()[k].content,
                    ) && scores@[k].num == keys@[k],
            decreases docs.len() - i,
        {
            let hay = lower_chars(docs[i].content.as_str());
            let hits = count_substring_hits(&query_words, &hay);
            let score = overlap_ratio(hits, query_words.len());
            let admitted = match &config.score_threshold {
                None => true,
                Some(t) => score.at_least(t),
            };
            keys.push(hits as u128);
            keep.push(admitted);
            scores.push(score);
            i = i + 1;
        }
        let order = rank(&keys, &keep, config.top_k);
        let mut r: Vec<ScoredChunk> = Vec::new();
        let mut a: usize = 0;
        while a < order.len()
            invariant
                a <= order.len(),
                docs@ == self.docs(),
                self.well_formed(),
                scores@.len() == docs@.len(),
                forall|k: int|
                    0 <= k < scores@.len() ==> #[trigger] scores@[k] == text_score(
                        query@,
                        self.model()[k].content,
                    ) && scores@[k].num == text_keys(self.model(), query@)[k],
                forall|b: int| 0 <= b < order@.len() ==> (#[trigger] order@[b]) < docs@.len(),
                r@.len() == a,
                forall|b: int| 0 <= b < a ==> (#[trigger] r@[b]).position == order@[b],
                forall|b: int|
                    0 <= b < a ==> (#[trigger] r@[b]).chunk@ == self.model()[r@[b].position as int]
                        && r@[b].chunk.valid() && r@[b].score == text_score(
                        query@,
                        r@[b].chunk@.content,
                    ) && r@[b].score.num == text_keys(self.model(), query@)[r@[b].position as int],
            decreases order.len() - a,
        {
            let p = order[a];
            r.push(ScoredChunk { chunk: docs[p].duplicate(), score: scores[p], position: p });
            a = a + 1;
        }
        assert(positions(r@) =~= order@);
        r
    }

    /// Ranks the stored chunks by keys computed elsewhere, as a vector search
    /// does: `keys` holds one key per stored chunk, higher for a better
    /// match, and `keep` tells which chunks the threshold admits.
    pub fn search_ranked(&self, keys: &Vec<u128>, keep: &Vec<bool>, top_k: usize) -> (r: Vec<
        RankedChunk,
    >)
        requires
            self.well_formed(),
            keys@.len() == keep@.len(),
            keys@.len() == self.model().len(),
        ensures
            is_ranking(ranked_positions(r@), keys@, keep@, top_k as nat),
            forall|a: int|
                0 <= a < r@.len() ==> (#[trigger] r@[a]).position < self.model().len()
                    && r@[a].chunk@ == self.model()[r@[a].position as int] && r@[a].chunk.valid(),
    {
        let docs = self.all();
        let order = rank(keys, keep, top_k);
        let mut r: Vec<RankedChunk> = Vec::new();
        let mut a: usize = 0;
        while a < order.len()
            invariant
                a <= order.len(),
                docs@ == self.docs(),
                self.well_formed(),
                forall|b: int| 0 <= b < order@.len() ==> (#[trigger] order@[b]) < docs@.len(),
                r@.len() == a,
                forall|b: int| 0 <= b < a ==> (#[trigger] r@[b]).position == order@[b],
                forall|b: int|
                    0 <= b < a ==> (#[trigger] r@[b]).chunk@ == self.model()[r@[b].position as int]
                        && r@[b].chunk.valid(),
            decreases order.len() - a,
        {
            let p = order[a];
            r.push(RankedChunk { chunk: docs[p].duplicate(), position: p });
            a = a + 1;
        }
        assert(ranked_positions(r@) =~= order@);
        r
    }
}

/// Similarity ordering: where the content of one chunk holds every word of
/// the query and the content of another holds none, every lexical search
/// result that lists the second lists the first before it.
pub proof fn lemma_similarity_ordering(
    docs: Seq<ChunkModel>,
    query: Seq<char>,
    threshold: Option<Ratio>,
    top_k: nat,
    r: Seq<usize>,
    all: usize,
    none: usize,
)
    requires
        is_ranking(r, text_keys(docs, query), text_keep(docs, query, threshold), top_k),
        all < docs.len(),
        none < docs.len(),
        0 < lower_words(query).len() <= u64::MAX,
        forall|k: int|
            0 <= k < lower_words(query).len() ==> contains(
                lowercase(docs[all as int].content),
                #[trigger] lower_words(query)[k],
            ),
        forall|k: int|
            0 <= k < lower_words(query).len() ==> !contains(
                lowercase(docs[none as int].content),
                #[trigger] lower_words(query)[k],
            ),
        r.contains(none),
    ensures
        r.contains(all),
        r.index_of(all) < r.index_of(none),
{
    let words = lower_words(query);
    let n = words.len() as int;
    let keys = text_keys(docs, query);
    let keep = text_keep(docs, query, threshold);
    lemma_all_found(words, lowercase(docs[all as int].content), n);
    lemma_none_found(words, lowercase(docs[none as int].content), n);
    assert(keep[all as int]) by {
        match threshold {
            None => {},
            Some(t) => {
                let low = text_score(query, docs[none as int].content);
                let high = text_score(query, docs[all as int].content);
                assert(t.num == 0) by (nonlinear_arith)
                    requires
                        low.num * t.den >= t.num * low.den,
                        low.num == 0,
                        low.den > 0,
                        t.num >= 0,
                ;
                assert(high.ge(t)) by (nonlinear_arith)
                    requires
                        t.num == 0,
                        high.num >= 0,
                        t.den >= 0,
                ;
            },
        }
    }
    lemma_higher_key_first(r, keys, keep, top_k, all, none);
}

/// The chunks that lexical search gives for a query, best first.
pub open spec fn search_results(
    docs: Seq<ChunkModel>,
    query: Seq<char>,
    threshold: Option<Ratio>,
    top_k: nat,
) -> Seq<ChunkModel> {
    let found = crate::ranking::ranking_of(
        text_keys(docs, query),
        crate::ranking::zero_ties(docs.len()),
        text_keep(docs, query, threshold),
        top_k,
    );
    Seq::new(found.len(), |a: int| docs[found[a] as int])
}

impl LocalVectorStore {
    /// Lexical search that gives copies of the chunks found, best first.
    pub fn search_chunks(&self, query: &str, config: &SearchConfig) -> (r: Vec<DocumentChunk>)
        requires
            self.well_formed(),
        ensures
            crate::document::models(r@) == search_results(
                self.model(),
                query@,
                config.score_threshold,
                config.top_k as nat,
            ),
            crate::document::all_valid(r@),
    {
        let hits = self.search(query, config);
        proof {
            crate::ranking::lemma_plain_ranking(
                positions(hits@),
                text_keys(self.model(), query@),
                text_keep(self.model(), query@, config.score_threshold),
                config.top_k as nat,
            );
        }
        let mut r: Vec<DocumentChunk> = Vec::new();
        let mut a: usize = 0;
        while a < hits.len()
            invariant
                a <= hits.len(),
                r@.len() == a,
                forall|b: int|
                    0 <= b < hits@.len() ==> (#[trigger] hits@[b]).position < self.model().len()
                        && hits@[b].chunk@ == self.model()[hits@[b].position as int]
                        && hits@[b].chunk.valid(),
                forall|b: int|
                    0 <= b < a ==> (#[trigger] r@[b])@ == hits@[b].chunk@ && r@[b].valid(),
            decreases hits.len() - a,
        {
            r.push(hits[a].chunk.duplicate());
            a = a + 1;
        }
        r
    }
}

} // verus!
