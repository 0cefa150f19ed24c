//! Retrieval and context building.
//!
//! A query is widened with related terms, the store is searched, the results
//! are put in order, and their texts are joined into a context block of
//! bounded length, with a confidence and the list of sources used.

use vstd::prelude::*;
use crate::document::{ChunkModel, DocumentChunk};
use crate::ranking::rank_by;
use crate::ratio::Ratio;
use crate::search::{positions, text_keep, text_keys, SearchConfig};
use crate::similarity::{
    count_word_hits, lower_word_list, lower_words, word_matches, lemma_word_hits_bound,
};
use crate::store::LocalVectorStore;
use crate::text::{
    chars_contain, chars_of, contains, decimal, extend_chars, matches_at, push_decimal, push_str,
    slice_of, starts_with, str_eq, string_of, strings, texts,
};

verus! {

/// How retrieval is configured.
#[derive(Debug)]
pub struct RAGConfig {
    /// The largest number of chunks in a context.
    pub max_context_chunks: usize,
    /// The least score of a chunk in a context.
    pub similarity_threshold: Ratio,
    /// The largest number of characters of chunk text in a context.
    pub context_window_size: usize,
    /// Whether queries are widened with related terms.
    pub enable_query_expansion: bool,
    /// Whether newer chunks are preferred.
    pub prioritize_recent: bool,
}

impl Default for RAGConfig {
    fn default() -> (c: Self)
        ensures
            c.max_context_chunks == 5,
            c.similarity_threshold == (Ratio { num: 7, den: 10 }),
            c.context_window_size == 2000,
            c.enable_query_expansion,
            !c.prioritize_recent,
    {
        RAGConfig {
            max_context_chunks: 5,
            similarity_threshold: Ratio { num: 7, den: 10 },
            context_window_size: 2000,
            enable_query_expansion: true,
            prioritize_recent: false,
        }
    }
}

/// What retrieval gives back for a query.
#[derive(Debug)]
pub struct RAGContext {
    pub relevant_chunks: Vec<DocumentChunk>,
    pub context_summary: String,
    pub confidence_score: Ratio,
    pub sources_used: Vec<String>,
}

/// The host and the path of the absolute URL `source`, as the `url` crate
/// parses it; `None` where the text is no absolute URL or the URL has no host.
pub uninterp spec fn url_host_and_path(source: Seq<char>) -> Option<(Seq<char>, Seq<char>)>;

/// Parses `source` with `url::Url::parse` and returns what `Url::host_str`
/// and `Url::path` give. The contract only gives the pair its name.
#[verifier::external_body]
pub(crate) fn host_and_path(source: &str) -> (r: Option<(String, String)>)
    ensures
        match r {
            Some(p) => url_host_and_path(source@) == Some((p.0@, p.1@)),
            None => url_host_and_path(source@) is None,
        },
{
    match url::Url::parse(source) {
        Ok(u) => match u.host_str() {
            Some(h) => Some((h.to_string(), u.path().to_string())),
            None => None,
        },
        Err(_) => None,
    }
}

/// One related-terms rule applied to `q`: the terms, where the query holds
/// one of the two keywords.
pub open spec fn related(q: Seq<char>, first: Seq<char>, second: Seq<char>, terms: Seq<char>) -> Seq<
    char,
> {
    if contains(q, first) || contains(q, second) {
        terms
    } else {
        Seq::empty()
    }
}

/// The query widened with related terms: the query, and after it the terms
/// of every rule whose keyword it holds, in the order of the rules.
pub open spec fn expanded(q: Seq<char>) -> Seq<char> {
    q + related(q, "ibmcloud"@, "ic"@, " CLI command line interface"@) + related(
        q,
        "login"@,
        "auth"@,
        " authentication credentials API key"@,
    ) + related(q, "deploy"@, "deploy"@, " deployment application service"@) + related(
        q,
        "function"@,
        "serverless"@,
        " OpenWhisk Cloud Functions"@,
    ) + related(q, "kubernetes"@, "k8s"@, " container cluster IKS"@)
}

/// Appends the terms of one related-terms rule to `out`.
fn push_related(out: &mut Vec<char>, q: &Vec<char>, first: &str, second: &str, terms: &str)
    ensures
        final(out)@ == old(out)@ + related(q@, first@, second@, terms@),
{
    if chars_contain(q, first) || chars_contain(q, second) {
        push_str(out, terms);
    }
}

/// The query widened with related terms.
pub fn expand_query(query: &str) -> (r: String)
    ensures
        r@ == expanded(query@),
{
    let q = chars_of(query);
    let mut out: Vec<char> = Vec::new();
    extend_chars(&mut out, &q);
    push_related(&mut out, &q, "ibmcloud", "ic", " CLI command line interface");
    push_related(&mut out, &q, "login", "auth", " authentication credentials API key");
    push_related(&mut out, &q, "deploy", "deploy", " deployment application service");
    push_related(&mut out, &q, "function", "serverless", " OpenWhisk Cloud Functions");
    push_related(&mut out, &q, "kubernetes", "k8s", " container cluster IKS");
    string_of(&out)
}

/// The largest source priority.
pub const MAX_SOURCE_PRIORITY: u8 = 10;

/// The priority of a source, higher for the more authoritative.
pub open spec fn source_priority(source: Seq<char>) -> u8 {
    if contains(source, "cloud.ibm.com/docs/cli"@) {
        10
    } else if contains(source, "watsonx"@) {
        8
    } else if contains(source, "cloud.ibm.com"@) {
        7
    } else if contains(source, "carbondesignsystem.com"@) {
        5
    } else {
        3
    }
}

/// The priority of a source, higher for the more authoritative.
pub fn get_source_priority(source: &str) -> (r: u8)
    ensures
        r == source_priority(source@),
        1 <= r <= MAX_SOURCE_PRIORITY,
{
    let s = chars_of(source);
    if chars_contain(&s, "cloud.ibm.com/docs/cli") {
        10
    } else if chars_contain(&s, "watsonx") {
        8
    } else if chars_contain(&s, "cloud.ibm.com") {
        7
    } else if chars_contain(&s, "carbondesignsystem.com") {
        5
    } else {
        3
    }
}

/// Where the last segment of `s` before `j` begins: after the last slash.
pub open spec fn segment_start(s: Seq<char>, j: int) -> int
    decreases j,
{
    if 0 < j <= s.len() && s[j - 1] != '/' {
        segment_start(s, j - 1)
    } else {
        j
    }
}

/// What follows the last slash of `s`, or all of `s` where it has none.
pub open spec fn last_segment(s: Seq<char>) -> Seq<char> {
    s.subrange(segment_start(s, s.len() as int), s.len() as int)
}

/// A readable name for a source, where `parsed` holds the host and the
/// path found in it, if any: host and path for a source that begins with
/// `http` and has them, and the last path segment for anything else.
pub open spec fn source_name_from(source: Seq<char>, parsed: Option<(Seq<char>, Seq<char>)>) -> Seq<
    char,
> {
    if starts_with(source, "http"@) {
        match parsed {
            Some(p) => p.0 + p.1,
            None => last_segment(source),
        }
    } else {
        last_segment(source)
    }
}

/// A readable name for a source: host and path for a web address, and the
/// last path segment for anything else.
pub open spec fn source_name(source: Seq<char>) -> Seq<char> {
    source_name_from(source, url_host_and_path(source))
}

/// What follows the last slash of `s`.
fn last_segment_of(s: &Vec<char>) -> (r: Vec<char>)
    ensures
        r@ == last_segment(s@),
{
    let mut j: usize = s.len();
    while j > 0 && s[j - 1] != '/'
        invariant
            j <= s.len(),
            segment_start(s@, s@.len() as int) == segment_start(s@, j as int),
        decreases j,
    {
        j = j - 1;
    }
    slice_of(s, j, s.len())
}

/// A readable name for a source, where `parsed` holds the host and the
/// path found in it, if any.
pub fn name_source(source: &str, parsed: &Option<(String, String)>) -> (r: String)
    ensures
        r@ == source_name_from(
            source@,
            match *parsed {
                Some(p) => Some((p.0@, p.1@)),
                None => None,
            },
        ),
{
    let s = chars_of(source);
    let http = chars_of("http");
    if matches_at(&s, &http, 0) {
        match parsed {
            Some(p) => {
                let mut out = chars_of(p.0.as_str());
                push_str(&mut out, p.1.as_str());
                return string_of(&out);
            },
            None => {},
        }
    }
    let seg = last_segment_of(&s);
    string_of(&seg)
}

/// A readable name for a source.
pub fn extract_source_name(source: &str) -> (r: String)
    ensures
        r@ == source_name(source@),
{
    let parsed = host_and_path(source);
    name_source(source, &parsed)
}

/// The block that shows chunk number `i` in a context.
pub open spec fn chunk_block(i: nat, c: ChunkModel) -> Seq<char> {
    "\n["@ + decimal(i + 1) + "] Source: "@ + source_name(c.source) + "\n"@ + c.content
}

/// The mark that stands where chunks were left out of a context.
pub open spec fn truncation_mark() -> Seq<char> {
    "\n[...] (Additional context truncated to fit window)\n"@
}

/// The blocks of the chunks from `i` on, where `used` characters of the
/// window are taken already: blocks divided by rules, up to the first block
/// that no longer fits, in whose place the truncation mark stands.
pub open spec fn summary_body(chunks: Seq<ChunkModel>, i: int, used: nat, window: nat) -> Seq<char>
    decreases chunks.len() - i,
{
    if i < 0 || i >= chunks.len() {
        Seq::empty()
    } else if used + chunk_block(i as nat, chunks[i]).len() > window {
        truncation_mark()
    } else {
        chunk_block(i as nat, chunks[i]) + (if i < chunks.len() - 1 {
            "\n---\n"@
        } else {
            Seq::empty()
        }) + summary_body(
            chunks,
            i + 1,
            used + chunk_block(i as nat, chunks[i]).len(),
            window,
        )
    }
}

/// The context block for the chunks: nothing for no chunks; else a heading
/// with the query, the body, and a closing line.
pub open spec fn context_summary(chunks: Seq<ChunkModel>, query: Seq<char>, window: nat) -> Seq<
    char,
> {
    if chunks.len() == 0 {
        Seq::empty()
    } else {
        "\n=== RELEVANT CONTEXT FOR: "@ + query + " ===\n"@ + summary_body(chunks, 0, 0, window)
            + "\n=== END CONTEXT ===\n"@
    }
}

/// The chunk models of `v`, in order.
pub open spec fn chunk_models(v: Seq<DocumentChunk>) -> Seq<ChunkModel> {
    crate::document::models(v)
}

/// The context block for the chunks, within a window of `window` characters
/// of chunk text.
pub fn create_context_summary(chunks: &Vec<DocumentChunk>, query: &str, window: usize) -> (r:
    String)
    ensures
        r@ == context_summary(chunk_models(chunks@), query@, window as nat),
{
    if chunks.len() == 0 {
        return String::new();
    }
    let mut out: Vec<char> = Vec::new();
    push_str(&mut out, "\n=== RELEVANT CONTEXT FOR: ");
    push_str(&mut out, query);
    push_str(&mut out, " ===\n");
    let ghost head = out@;
    let ghost models = chunk_models(chunks@);
    let mut used: usize = 0;
    let mut i: usize = 0;
    let mut cut = false;
    while i < chunks.len() && !cut
        invariant
            i <= chunks.len(),
            models == chunk_models(chunks@),
            used <= window,
            !cut ==> out@ + summary_body(models, i as int, used as nat, window as nat) == head
                + summary_body(models, 0, 0, window as nat),
            cut ==> out@ == head + summary_body(models, 0, 0, window as nat),
        decreases chunks.len() - i, if cut { 0int } else { 1int },
    {
        let c = &chunks[i];
        let mut block: Vec<char> = Vec::new();
        push_str(&mut block, "\n[");
        push_decimal(&mut block, i + 1);
        push_str(&mut block, "] Source: ");
        let name = extract_source_name(c.source.as_str());
        push_str(&mut block, name.as_str());
        push_str(&mut block, "\n");
        push_str(&mut block, c.content.as_str());
        if block.len() > window - used {
            push_str(&mut out, "\n[...] (Additional context truncated to fit window)\n");
            cut = true;
        } else {
            extend_chars(&mut out, &block);
            used = used + block.len();
            if i < chunks.len() - 1 {
                push_str(&mut out, "\n---\n");
            }
            i = i + 1;
        }
    }
    push_str(&mut out, "\n=== END CONTEXT ===\n");
    string_of(&out)
}

/// The prompt with the context put before it and an instruction to ground
/// the answer in the context after it.
pub open spec fn enhanced_prompt(context: Seq<char>, prompt: Seq<char>) -> Seq<char> {
    context + "\n\nBased on the above documentation context, please "@ + prompt
        + "\n\nEnsure your response is accurate and references the provided documentation when relevant."@
}

/// The prompt to send: the prompt as it is where no chunk was retrieved,
/// else the prompt with the context around it.
pub fn build_enhanced_prompt(context: &RAGContext, original_prompt: &str) -> (r: String)
    ensures
        r@ == (if context.relevant_chunks@.len() == 0 {
            original_prompt@
        } else {
            enhanced_prompt(context.context_summary@, original_prompt@)
        }),
{
    if context.relevant_chunks.len() == 0 {
        return original_prompt.to_owned();
    }
    let mut out: Vec<char> = Vec::new();
    push_str(&mut out, context.context_summary.as_str());
    push_str(&mut out, "\n\nBased on the above documentation context, please ");
    push_str(&mut out, original_prompt);
    push_str(
        &mut out,
        "\n\nEnsure your response is accurate and references the provided documentation when relevant.",
    );
    string_of(&out)
}

/// The sum, over the first `n` chunks, of the number of query words that
/// are words of the chunk's content, times the priority of its source.
pub open spec fn weighted_hits(chunks: Seq<ChunkModel>, query: Seq<char>, n: int) -> nat
    decreases n,
{
    if n <= 0 {
        0
    } else {
        weighted_hits(chunks, query, n - 1) + word_matches(query, chunks[n - 1].content)
            * source_priority(chunks[n - 1].source) as nat
    }
}

/// The confidence in a context: the mean, over its chunks, of the share of
/// the query's words that are words of the chunk, times the priority of the
/// chunk's source as a share of the largest priority. It is zero for no
/// chunks, for a query without words, and where the sizes are beyond what a
/// fraction can hold.
pub open spec fn confidence(chunks: Seq<ChunkModel>, query: Seq<char>) -> Ratio {
    let words = lower_words(query).len();
    let count = chunks.len();
    if count == 0 || words == 0 || 10 * (words * count) > u64::MAX {
        Ratio { num: 0, den: 1 }
    } else {
        Ratio {
            num: weighted_hits(chunks, query, count as int) as u64,
            den: (10 * (words * count)) as u64,
        }
    }
}

/// The weighted hits of `n` chunks are at most ten for every word of the
/// query and every chunk.
pub proof fn lemma_weighted_hits_bound(chunks: Seq<ChunkModel>, query: Seq<char>, n: int)
    requires
        0 <= n <= chunks.len(),
    ensures
        weighted_hits(chunks, query, n) <= 10 * (lower_words(query).len() * n),
    decreases n,
{
    if n > 0 {
        lemma_weighted_hits_bound(chunks, query, n - 1);
        let w = lower_words(query).len() as int;
        assert(source_priority(chunks[n - 1].source) <= 10);
        lemma_word_hits_bound(lower_words(query), lower_words(chunks[n - 1].content), w);
        assert(10 * (w * (n - 1)) + 10 * w == 10 * (w * n)) by (nonlinear_arith);
    }
}

/// A confidence lies between zero and one.
pub proof fn lemma_confidence_unit(chunks: Seq<ChunkModel>, query: Seq<char>)
    ensures
        confidence(chunks, query).unit(),
{
    lemma_weighted_hits_bound(chunks, query, chunks.len() as int);
    let words = lower_words(query).len() as int;
    let count = chunks.len() as int;
    if count > 0 && words > 0 {
        assert(words * count > 0) by (nonlinear_arith)
            requires
                words > 0,
                count > 0,
        ;
    }
}

/// The confidence in a context made of `chunks` for `query`.
pub fn calculate_confidence_score(chunks: &Vec<DocumentChunk>, query: &str) -> (r: Ratio)
    ensures
        r == confidence(chunk_models(chunks@), query@),
        r.unit(),
{
    let ghost models = chunk_models(chunks@);
    proof {
        lemma_confidence_unit(models, query@);
    }
    let query_words = lower_word_list(query);
    let words = query_words.len();
    let count = chunks.len();
    if count == 0 || words == 0 {
        return Ratio { num: 0, den: 1 };
    }
    let den: u64 = match (words as u64).checked_mul(count as u64) {
        Some(x) => match x.checked_mul(10) {
            Some(d) => d,
            None => {
                return Ratio { num: 0, den: 1 };
            },
        },
        None => {
            return Ratio { num: 0, den: 1 };
        },
    };
    let mut num: u64 = 0;
    let mut i: usize = 0;
    while i < count
        invariant
            i <= count,
            count == chunks.len(),
            models == chunk_models(chunks@),
            words == lower_words(query@).len(),
            texts(query_words@) == lower_words(query@),
            den == 10 * (words * count),
            num == weighted_hits(models, query@, i as int),
        decreases count - i,
    {
        let c = &chunks[i];
        let content_words = lower_word_list(c.content.as_str());
        let hits = count_word_hits(&query_words, &content_words);
        let priority = get_source_priority(c.source.as_str());
        proof {
            lemma_weighted_hits_bound(models, query@, i + 1);
            assert(10 * (words * (i + 1)) <= 10 * (words * count)) by (nonlinear_arith)
                requires
                    i + 1 <= count,
                    words >= 0,
            ;
        }
        num = num + (hits as u64) * (priority as u64);
        i = i + 1;
    }
    Ratio { num, den }
}

/// The sources of the first `n` chunks, each once, in the order in which
/// they first occur.
pub open spec fn distinct_sources(chunks: Seq<ChunkModel>, n: int) -> Seq<Seq<char>>
    decreases n,
{
    if n <= 0 {
        Seq::empty()
    } else {
        let before = distinct_sources(chunks, n - 1);
        if before.contains(chunks[n - 1].source) {
            before
        } else {
            before.push(chunks[n - 1].source)
        }
    }
}

/// The sources of the chunks, each once, in the order in which they first occur.
pub fn sources_of(chunks: &Vec<DocumentChunk>) -> (r: Vec<String>)
    ensures
        strings(r@) == distinct_sources(chunk_models(chunks@), chunks@.len() as int),
{
    let ghost models = chunk_models(chunks@);
    let mut r: Vec<String> = Vec::new();
    let mut i: usize = 0;
    while i < chunks.len()
        invariant
            i <= chunks.len(),
            models == chunk_models(chunks@),
            strings(r@) == distinct_sources(models, i as int),
        decreases chunks.len() - i,
    {
        let c = &chunks[i];
        let mut seen = false;
        let mut k: usize = 0;
        while k < r.len() && !seen
            invariant
                k <= r.len(),
                seen ==> strings(r@).contains(c.source@),
                !seen ==> forall|j: int| 0 <= j < k ==> strings(r@)[j] != c.source@,
            decreases r.len() - k, if seen { 0int } else { 1int },
        {
            if str_eq(r[k].as_str(), c.source.as_str()) {
                assert(strings(r@)[k as int] == c.source@);
                seen = true;
            } else {
                k = k + 1;
            }
        }
        if !seen {
            r.push(c.source.clone());
        }
        i = i + 1;
    }
    r
}

/// The query that is searched for: the query widened with related terms
/// where the configuration asks for that, else the query as it is.
pub open spec fn search_query(query: Seq<char>, expand: bool) -> Seq<char> {
    if expand {
        expanded(query)
    } else {
        query
    }
}

/// The positions in the store of the chunks that similarity search finds.
pub open spec fn found_positions(
    docs: Seq<ChunkModel>,
    query: Seq<char>,
    threshold: Ratio,
    top_k: nat,
) -> Seq<usize> {
    crate::ranking::ranking_of(
        text_keys(docs, query),
        crate::ranking::zero_ties(docs.len()),
        text_keep(docs, query, Some(threshold)),
        top_k,
    )
}

/// The similarity keys of the found chunks.
pub open spec fn found_keys(docs: Seq<ChunkModel>, query: Seq<char>, found: Seq<usize>) -> Seq<
    u128,
> {
    Seq::new(found.len(), |a: int| text_keys(docs, query)[found[a] as int])
}

/// The source priorities of the found chunks.
pub open spec fn found_priorities(docs: Seq<ChunkModel>, found: Seq<usize>) -> Seq<u128> {
    Seq::new(found.len(), |a: int| source_priority(docs[found[a] as int].source) as u128)
}

/// The order in which the found chunks stand in a context: by descending
/// similarity, then by descending source priority, then as found.
pub open spec fn context_order(docs: Seq<ChunkModel>, query: Seq<char>, found: Seq<usize>) -> Seq<
    usize,
> {
    crate::ranking::ranking_of(
        found_keys(docs, query, found),
        found_priorities(docs, found),
        crate::ranking::all_true(found.len()),
        found.len(),
    )
}

/// The chunks of a context for `query`: those that similarity search finds,
/// in context order.
pub open spec fn retrieved(
    docs: Seq<ChunkModel>,
    query: Seq<char>,
    threshold: Ratio,
    top_k: nat,
) -> Seq<ChunkModel> {
    let found = found_positions(docs, query, threshold, top_k);
    let order = context_order(docs, query, found);
    Seq::new(order.len(), |a: int| docs[found[order[a] as int] as int])
}

/// The retrieval engine: a store and a configuration.
pub struct RAGEngine {
    pub store: LocalVectorStore,
    pub config: RAGConfig,
}

impl RAGEngine {
    /// An engine over `store` with the default configuration.
    pub fn new(store: LocalVectorStore) -> (e: Self)
        ensures
            e.store == store,
            e.config.max_context_chunks == 5,
            e.config.similarity_threshold == (Ratio { num: 7, den: 10 }),
            e.config.context_window_size == 2000,
            e.config.enable_query_expansion,
            !e.config.prioritize_recent,
    {
        RAGEngine { store, config: RAGConfig::default() }
    }

    /// An engine over `store` with the configuration `config`.
    pub fn with_config(store: LocalVectorStore, config: RAGConfig) -> (e: Self)
        ensures
            e.store == store,
            e.config == config,
    {
        RAGEngine { store, config }
    }

    /// What is told of the engine: how many chunks its store holds, the
    /// most chunks of a context, and the size of the context window.
    pub fn get_stats(&self) -> (r: (usize, usize, usize))
        ensures
            r.0 == self.store.model().len(),
            r.1 == self.config.max_context_chunks,
            r.2 == self.config.context_window_size,
    {
        (self.store.count(), self.config.max_context_chunks, self.config.context_window_size)
    }

    /// Replaces the configuration.
    pub fn update_config(&mut self, config: RAGConfig)
        ensures
            final(self).config == config,
            final(self).store == old(self).store,
    {
        self.config = config;
    }

    /// The chunks of a context for `query`: similarity search, then context
    /// order.
    pub fn retrieve_chunks(&self, query: &str) -> (r: Vec<DocumentChunk>)
        requires
            self.store.well_formed(),
        ensures
            chunk_models(r@) == retrieved(
                self.store.model(),
                search_query(query@, self.config.enable_query_expansion),
                self.config.similarity_threshold,
                self.config.max_context_chunks as nat,
            ),
            crate::document::all_valid(r@),
    {
        let wide = if self.config.enable_query_expansion {
            expand_query(query)
        } else {
            query.to_owned()
        };
        let ghost sq = wide@;
        let ghost docs = self.store.model();
        let search_config = SearchConfig {
            top_k: self.config.max_context_chunks,
            score_threshold: Some(self.config.similarity_threshold),
        };
        let hits = self.store.search(wide.as_str(), &search_config);
        let ghost found = positions(hits@);
        proof {
            crate::ranking::lemma_plain_ranking(
                found,
                text_keys(docs, sq),
                text_keep(docs, sq, Some(self.config.similarity_threshold)),
                self.config.max_context_chunks as nat,
            );
        }
        let n = hits.len();
        let mut keys: Vec<u128> = Vec::new();
        let mut ties: Vec<u128> = Vec::new();
        let mut keep: Vec<bool> = Vec::new();
        let mut i: usize = 0;
        while i < n
            invariant
                i <= n,
                n == hits@.len(),
                found == positions(hits@),
                docs == self.store.model(),
                keys@.len() == i,
                ties@.len() == i,
                keep@.len() == i,
                forall|a: int|
                    0 <= a < hits@.len() ==> (#[trigger] hits@[a]).position < docs.len()
                        && hits@[a].chunk@ == docs[hits@[a].position as int]
                        && hits@[a].chunk.valid() && hits@[a].score.num == text_keys(
                        docs,
                        sq,
                    )[hits@[a].position as int],
                forall|a: int| 0 <= a < i ==> #[trigger] keys@[a] == found_keys(docs, sq, found)[a],
                forall|a: int|
                    0 <= a < i ==> #[trigger] ties@[a] == found_priorities(docs, found)[a],
                forall|a: int| 0 <= a < i ==> #[trigger] keep@[a],
            decreases n - i,
        {
            let h = &hits[i];
            keys.push(h.score.num as u128);
            ties.push(get_source_priority(h.chunk.source.as_str()) as u128);
            keep.push(true);
            i = i + 1;
        }
        let order = rank_by(&keys, &ties, &keep, n);
        proof {
            crate::ranking::lemma_is_the_ranking(
                order@,
                found_keys(docs, sq, found),
                found_priorities(docs, found),
                crate::ranking::all_true(found.len()),
                found.len(),
            );
        }
        let mut r: Vec<DocumentChunk> = Vec::new();
        let mut a: usize = 0;
        while a < order.len()
            invariant
                a <= order.len(),
                n == hits@.len(),
                found == positions(hits@),
                docs == self.store.model(),
                forall|b: int| 0 <= b < order@.len() ==> (#[trigger] order@[b]) < n,
                forall|b: int|
                    0 <= b < hits@.len() ==> (#[trigger] hits@[b]).position < docs.len()
                        && hits@[b].chunk@ == docs[hits@[b].position as int]
                        && hits@[b].chunk.valid(),
                r@.len() == a,
                forall|b: int|
                    0 <= b < a ==> (#[trigger] r@[b])@ == docs[found[order@[b] as int] as int]
                        && r@[b].valid(),
            decreases order.len() - a,
        {
            let p = order[a];
            r.push(hits[p].chunk.duplicate());
            a = a + 1;
        }
        r
    }

    /// The context for `query`: the retrieved chunks, their context block
    /// within the configured window, the confidence in them, and their
    /// sources.
    pub fn retrieve_context(&self, query: &str) -> (r: RAGContext)
        requires
            self.store.well_formed(),
        ensures
            chunk_models(r.relevant_chunks@) == retrieved(
                self.store.model(),
                search_query(query@, self.config.enable_query_expansion),
                self.config.similarity_threshold,
                self.config.max_context_chunks as nat,
            ),
            r.context_summary@ == context_summary(
                chunk_models(r.relevant_chunks@),
                query@,
                self.config.context_window_size as nat,
            ),
            r.confidence_score == confidence(chunk_models(r.relevant_chunks@), query@),
            r.confidence_score.unit(),
            strings(r.sources_used@) == distinct_sources(
                chunk_models(r.relevant_chunks@),
                r.relevant_chunks@.len() as int,
            ),
    {
        let relevant_chunks = self.retrieve_chunks(query);
        let context_summary = create_context_summary(
            &relevant_chunks,
            query,
            self.config.context_window_size,
        );
        let confidence_score = calculate_confidence_score(&relevant_chunks, query);
        let sources_used = sources_of(&relevant_chunks);
        RAGContext { relevant_chunks, context_summary, confidence_score, sources_used }
    }

    /// The prompt to send for a query: the original prompt as it is where
    /// nothing is retrieved, else with the retrieved context around it.
    pub open spec fn enhanced(&self, original_prompt: Seq<char>, query: Seq<char>) -> Seq<char> {
        let chunks = retrieved(
            self.store.model(),
            search_query(query, self.config.enable_query_expansion),
            self.config.similarity_threshold,
            self.config.max_context_chunks as nat,
        );
        if chunks.len() == 0 {
            original_prompt
        } else {
            enhanced_prompt(
                context_summary(chunks, query, self.config.context_window_size as nat),
                original_prompt,
            )
        }
    }

    /// The prompt to send for `query`: `original_prompt` as it is where
    /// nothing is retrieved, else with the retrieved context around it.
    pub fn enhance_prompt(&self, original_prompt: &str, query: &str) -> (r: String)
        requires
            self.store.well_formed(),
        ensures
            r@ == self.enhanced(original_prompt@, query@),
    {
        let context = self.retrieve_context(query);
        build_enhanced_prompt(&context, original_prompt)
    }
}

} // verus!
