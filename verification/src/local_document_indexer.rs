//! The document indexer over the local store.
//!
//! The indexer cuts texts and web pages into chunks, stores them, keeps a
//! list of the sources it has indexed, and builds the context that a query
//! is answered with.

use vstd::prelude::*;
use crate::chunking::{chunk_model, chunk_texts};
use crate::document::{all_valid, models, ChunkModel, DocumentChunk};
use crate::html::{html_chunks, parse_html_to_chunks};
use crate::ranking::{all_true, rank, ranking_of, zero_ties};
use crate::search::{search_results, SearchConfig};
use crate::similarity::{count_word_hits, lower_word_list, lower_words, word_matches};
use crate::store::{put_all, LocalVectorStore};
use crate::string_map::StringMap;
use crate::text::{
    chars_contain, chars_of, contains, decimal, lower_chars, lowercase, push_decimal, push_str,
    str_eq, string_of, strings, texts,
};

verus! {

/// What kind of material a source holds.
#[derive(Clone, Copy, Debug, PartialEq, Eq, Structural)]
pub enum SourceType {
    Documentation,
    Tutorial,
    Reference,
    Example,
}

/// A source that was indexed.
#[derive(Debug)]
pub struct ReferenceSource {
    pub name: String,
    pub url: String,
    pub source_type: SourceType,
    /// When the source was last indexed, as a timestamp in text.
    pub last_indexed: Option<String>,
    /// How many chunks the source gave.
    pub chunk_count: usize,
}

impl ReferenceSource {
    /// A copy that holds the same values.
    pub fn duplicate(&self) -> (r: Self)
        ensures
            r == *self,
    {
        ReferenceSource {
            name: self.name.clone(),
            url: self.url.clone(),
            source_type: self.source_type,
            last_indexed: match &self.last_indexed {
                Some(t) => Some(t.clone()),
                None => None,
            },
            chunk_count: self.chunk_count,
        }
    }
}

impl Clone for ReferenceSource {
    fn clone(&self) -> (r: Self)
        ensures
            r == *self,
    {
        self.duplicate()
    }
}

/// The first `n` sources without those at the address `url`.
pub open spec fn without_url(sources: Seq<ReferenceSource>, url: Seq<char>, n: int) -> Seq<
    ReferenceSource,
>
    decreases n,
{
    if n <= 0 {
        Seq::empty()
    } else if sources[n - 1].url@ == url {
        without_url(sources, url, n - 1)
    } else {
        without_url(sources, url, n - 1).push(sources[n - 1])
    }
}

/// The chunks that a text document gives: the chunks of its text, numbered
/// from zero, each with the base metadata and its own index and size.
pub open spec fn text_document_chunks(
    content: Seq<char>,
    source: Seq<char>,
    base_keys: Seq<Seq<char>>,
    base_values: Seq<Seq<char>>,
) -> Seq<ChunkModel> {
    Seq::new(
        chunk_texts(content).len(),
        |k: int| chunk_model(chunk_texts(content)[k], source, base_keys, base_values, k as nat),
    )
}

/// A content tells of the command line.
pub open spec fn tells_of_cli(content: Seq<char>) -> bool {
    let c = lowercase(content);
    contains(c, "ibmcloud"@) || contains(c, "cli"@) || contains(c, "command"@)
}

/// A chunk longer than this counts as long.
pub const LONG_CHUNK_CHARS: usize = 500;

/// The number of words of a query, but one for a query without words.
pub open spec fn word_base(query: Seq<char>) -> nat {
    if lower_words(query).len() == 0 {
        1
    } else {
        lower_words(query).len()
    }
}

/// The relevance of a chunk for a query, in tenths of a word of the query
/// and raised by one whole: the share of the query's words that are words
/// of the content, two tenths more where the content tells of the command
/// line, and one tenth less where the chunk is long.
pub open spec fn relevance_key(query: Seq<char>, c: ChunkModel) -> nat {
    10 * word_matches(query, c.content) + (if tells_of_cli(c.content) {
        2 * word_base(query)
    } else {
        0
    }) + (if c.content.len() > LONG_CHUNK_CHARS {
        0
    } else {
        word_base(query)
    })
}

/// The relevance keys of the chunks.
pub open spec fn relevance_keys(chunks: Seq<ChunkModel>, query: Seq<char>) -> Seq<u128> {
    Seq::new(chunks.len(), |i: int| relevance_key(query, chunks[i]) as u128)
}

/// The most relevant chunks for a query: the best one alone where it is the
/// only one or its relevance is more than three tenths, and else the best two.
pub open spec fn most_relevant(chunks: Seq<ChunkModel>, query: Seq<char>) -> Seq<ChunkModel> {
    let order = ranking_of(
        relevance_keys(chunks, query),
        zero_ties(chunks.len()),
        all_true(chunks.len()),
        2,
    );
    if order.len() == 0 {
        Seq::empty()
    } else if order.len() == 1 || chunks.len() == 1 || relevance_keys(
        chunks,
        query,
    )[order[0] as int] > 4 * word_base(query) {
        seq![chunks[order[0] as int]]
    } else {
        seq![chunks[order[0] as int], chunks[order[1] as int]]
    }
}

/// The numbered lines of the first `n` chunks in a context.
pub open spec fn context_lines(chunks: Seq<ChunkModel>, n: int) -> Seq<char>
    decreases n,
{
    if n <= 0 {
        Seq::empty()
    } else {
        context_lines(chunks, n - 1) + "\n"@ + decimal(n as nat) + ". "@ + chunks[n - 1].content + (
        if n < chunks.len() {
            "\n"@
        } else {
            Seq::empty()
        })
    }
}

/// The context for the chunks: nothing for no chunks, and else the
/// numbered contents between a heading and a closing line.
pub open spec fn cli_context(chunks: Seq<ChunkModel>) -> Seq<char> {
    "\n--- Relevant Context ---\n"@ + context_lines(chunks, chunks.len() as int)
        + "\n--- End Context ---\n"@
}

/// The most chunks that are searched for a context.
pub const CONTEXT_SEARCH_LIMIT: usize = 2;

/// The context for a query over the stored chunks `docs`.
pub open spec fn cli_context_for(docs: Seq<ChunkModel>, query: Seq<char>) -> Seq<char> {
    let found = search_results(docs, query, None, CONTEXT_SEARCH_LIMIT as nat);
    if found.len() == 0 {
        Seq::empty()
    } else {
        cli_context(most_relevant(found, query))
    }
}

/// The pages of the IBM Cloud command-line documentation that are indexed
/// on request, each with its title and its address.
pub open spec fn documentation_pages() -> Seq<(Seq<char>, Seq<char>)> {
    seq![
        ("IBM Cloud CLI Overview"@, "https://cloud.ibm.com/docs/cli"@),
        ("IBM Cloud CLI Reference"@, "https://cloud.ibm.com/docs/cli?topic=cli-ibmcloud_cli"@),
        (
            "Getting Started with IBM Cloud CLI"@,
            "https://cloud.ibm.com/docs/cli?topic=cli-getting-started"@,
        ),
    ]
}

/// The pages of the IBM Cloud command-line documentation, each with its
/// title and its address.
pub fn ibm_cloud_doc_pages() -> (r: Vec<(String, String)>)
    ensures
        r@.len() == documentation_pages().len(),
        forall|i: int|
            0 <= i < r@.len() ==> (#[trigger] r@[i]).0@ == documentation_pages()[i].0 && r@[i].1@
                == documentation_pages()[i].1,
{
    let mut r: Vec<(String, String)> = Vec::new();
    r.push(("IBM Cloud CLI Overview".to_owned(), "https://cloud.ibm.com/docs/cli".to_owned()));
    r.push(
        (
            "IBM Cloud CLI Reference".to_owned(),
            "https://cloud.ibm.com/docs/cli?topic=cli-ibmcloud_cli".to_owned(),
        ),
    );
    r.push(
        (
            "Getting Started with IBM Cloud CLI".to_owned(),
            "https://cloud.ibm.com/docs/cli?topic=cli-getting-started".to_owned(),
        ),
    );
    r
}

/// Idempotent re-indexing: after a text is indexed under a source, indexing
/// the same text under the same source with the same metadata again leaves
/// the number of stored chunks as it was.
pub proof fn lemma_reindex_text_keeps_count(
    m: Seq<ChunkModel>,
    content: Seq<char>,
    source: Seq<char>,
    keys: Seq<Seq<char>>,
    values: Seq<Seq<char>>,
)
    requires
        crate::store::distinct_ids(m),
    ensures
        ({
            let chunks = text_document_chunks(content, source, keys, values);
            let n = chunk_texts(content).len() as int;
            put_all(put_all(m, chunks, n), chunks, n).len() == put_all(m, chunks, n).len()
        }),
{
    let chunks = text_document_chunks(content, source, keys, values);
    assert(chunks.len() == chunk_texts(content).len());
    crate::store::lemma_reindex_keeps_count(m, chunks);
}

/// The line that tells of an indexed source: its name, how many chunks it
/// gave, and when it was indexed last.
pub open spec fn source_line(s: ReferenceSource) -> Seq<char> {
    "  • "@ + s.name@ + " ("@ + crate::text::decimal(s.chunk_count as nat) + " chunks) - "@ + (
    match s.last_indexed {
        Some(t) => t@,
        None => "Never"@,
    })
}

/// What is told of the indexed sources, line by line: a heading, and a
/// line for every source.
pub open spec fn sources_report(sources: Seq<ReferenceSource>) -> Seq<Seq<char>> {
    seq!["\n📋 Indexed Sources:"@] + Seq::new(sources.len(), |i: int| source_line(sources[i]))
}

/// The document indexer over the local store.
pub struct LocalDocumentIndexer {
    pub vector_store: LocalVectorStore,
    pub sources: Vec<ReferenceSource>,
}

impl LocalDocumentIndexer {
    /// An indexer over an empty store, without sources.
    pub fn new() -> (r: Self)
        ensures
            r.vector_store.well_formed(),
            r.vector_store.docs().len() == 0,
            r.vector_store.model() == Seq::<ChunkModel>::empty(),
            r.sources@.len() == 0,
    {
        LocalDocumentIndexer { vector_store: LocalVectorStore::new(), sources: Vec::new() }
    }

    /// An indexer over `store`, without sources.
    pub fn with_store(store: LocalVectorStore) -> (r: Self)
        ensures
            r.vector_store == store,
            r.sources@.len() == 0,
    {
        LocalDocumentIndexer { vector_store: store, sources: Vec::new() }
    }

    /// Notes a source. A source noted before under the same address leaves.
    pub fn add_reference_source(&mut self, source: ReferenceSource)
        ensures
            final(self).sources@ == without_url(
                old(self).sources@,
                source.url@,
                old(self).sources@.len() as int,
            ).push(source),
            final(self).vector_store == old(self).vector_store,
    {
        let mut kept: Vec<ReferenceSource> = Vec::new();
        let mut i: usize = 0;
        while i < self.sources.len()
            invariant
                i <= self.sources.len(),
                self.sources == old(self).sources,
                self.vector_store == old(self).vector_store,
                kept@ == without_url(self.sources@, source.url@, i as int),
            decreases self.sources.len() - i,
        {
            if !str_eq(self.sources[i].url.as_str(), source.url.as_str()) {
                kept.push(self.sources[i].duplicate());
            }
            i = i + 1;
        }
        kept.push(source);
        self.sources = kept;
    }

    /// The chunks of `text`, numbered from zero in the order of the text.
    pub fn split_text_into_chunks(
        &self,
        text: &str,
        source: &str,
        metadata: &StringMap<String>,
    ) -> (r: Vec<DocumentChunk>)
        requires
            metadata.well_formed(),
        ensures
            r@.len() == chunk_texts(text@).len(),
            forall|k: int|
                0 <= k < r@.len() ==> crate::chunking::chunk_of(
                    #[trigger] r@[k],
                    chunk_texts(text@)[k],
                    source@,
                    *metadata,
                    k as nat,
                ),
            forall|k: int|
                0 <= k < r@.len() ==> (#[trigger] r@[k]).content@ == chunk_texts(text@)[k]
                    && r@[k].content@.len() > 0,
            forall|k: int|
                0 <= k < r@.len() ==> (#[trigger] r@[k]).content@.len()
                    <= crate::chunking::PARAGRAPH_TARGET_CHARS || crate::chunking::is_lone_sentence(
                    text@,
                    r@[k].content@,
                ),
    {
        crate::chunking::split_text_into_chunks(text, source, metadata)
    }

    /// Indexes a text: cuts it into chunks, stores the chunks one after
    /// another, and returns how many there were.
    pub fn index_text_document(&mut self, content: &str, source: &str, metadata: StringMap<String>) -> (n:
        usize)
        requires
            old(self).vector_store.well_formed(),
            metadata.well_formed(),
        ensures
            final(self).vector_store.well_formed(),
            final(self).vector_store.model() == put_all(
                old(self).vector_store.model(),
                text_document_chunks(content@, source@, metadata.keys(), metadata.value_texts()),
                n as int,
            ),
            n == chunk_texts(content@).len(),
            final(self).sources == old(self).sources,
    {
        let chunks = crate::chunking::split_text_into_chunks(content, source, &metadata);
        assert(models(chunks@) =~= text_document_chunks(
            content@,
            source@,
            metadata.keys(),
            metadata.value_texts(),
        ));
        self.vector_store.index_documents(&chunks)
    }

    /// Indexes the content of a web page, and returns how many chunks it gave.
    pub fn index_html(&mut self, html_content: &str, url: &str) -> (n: usize)
        requires
            old(self).vector_store.well_formed(),
        ensures
            final(self).vector_store.well_formed(),
            final(self).vector_store.model() == put_all(
                old(self).vector_store.model(),
                html_chunks(html_content@, url@),
                n as int,
            ),
            n == html_chunks(html_content@, url@).len(),
            final(self).sources == old(self).sources,
    {
        let chunks = parse_html_to_chunks(html_content, url);
        self.vector_store.index_documents(&chunks)
    }

    /// Indexes the content of the web page at `url`, which was fetched at
    /// the time `indexed_at`, notes the page as a source under `name`, and
    /// returns how many chunks it gave.
    pub fn index_fetched_page(
        &mut self,
        html_content: &str,
        url: &str,
        name: &str,
        source_type: SourceType,
        indexed_at: String,
    ) -> (n: usize)
        requires
            old(self).vector_store.well_formed(),
        ensures
            final(self).vector_store.well_formed(),
            final(self).vector_store.model() == put_all(
                old(self).vector_store.model(),
                html_chunks(html_content@, url@),
                n as int,
            ),
            n == html_chunks(html_content@, url@).len(),
            final(self).sources@.len() > 0,
            final(self).sources@.drop_last() == without_url(
                old(self).sources@,
                url@,
                old(self).sources@.len() as int,
            ),
            ({
                let noted = final(self).sources@.last();
                &&& noted.name@ == name@
                &&& noted.url@ == url@
                &&& noted.source_type == source_type
                &&& noted.last_indexed == Some(indexed_at)
                &&& noted.chunk_count == n
            }),
    {
        let n = self.index_html(html_content, url);
        let source = ReferenceSource {
            name: name.to_owned(),
            url: url.to_owned(),
            source_type,
            last_indexed: Some(indexed_at),
            chunk_count: n,
        };
        let ghost kept = without_url(self.sources@, url@, self.sources@.len() as int);
        self.add_reference_source(source);
        assert(self.sources@.drop_last() =~= kept);
        n
    }

    /// Indexes the text of the file at `path`, with metadata that tells
    /// where it is from, and returns how many chunks it gave.
    pub fn index_file_content(&mut self, content: &str, path: &str) -> (n: usize)
        requires
            old(self).vector_store.well_formed(),
        ensures
            final(self).vector_store.well_formed(),
            final(self).vector_store.model() == put_all(
                old(self).vector_store.model(),
                text_document_chunks(content@, path@, seq!["source"@, "path"@], seq!["file"@, path@]),
                n as int,
            ),
            n == chunk_texts(content@).len(),
            final(self).sources == old(self).sources,
    {
        let mut metadata: StringMap<String> = StringMap::new();
        metadata.set("source", "file");
        proof {
            reveal_strlit("source");
            reveal_strlit("path");
            assert("source"@.len() != "path"@.len());
        }
        metadata.set("path", path);
        assert(metadata.keys() =~= seq!["source"@, "path"@]);
        assert(metadata.value_texts() =~= seq!["file"@, path@]);
        self.index_text_document(content, path, metadata)
    }

    /// What is told of the indexer, line by line: of its store, which is
    /// kept in the file `data_file`, and of its sources.
    pub fn get_indexing_stats(&self, data_file: &str) -> (r: Vec<String>)
        ensures
            strings(r@) == crate::store::collection_info(
                self.vector_store.model().len(),
                data_file@,
            ) + sources_report(self.sources@),
    {
        let mut r = self.vector_store.get_collection_info(data_file);
        let ghost head = strings(r@);
        r.push("\n📋 Indexed Sources:".to_owned());
        assert(strings(r@) =~= head + sources_report(self.sources@.take(0)));
        let mut i: usize = 0;
        while i < self.sources.len()
            invariant
                i <= self.sources.len(),
                strings(r@) == head + sources_report(self.sources@.take(i as int)),
            decreases self.sources.len() - i,
        {
            let source = &self.sources[i];
            let mut line = chars_of("  • ");
            push_str(&mut line, source.name.as_str());
            push_str(&mut line, " (");
            crate::text::push_decimal(&mut line, source.chunk_count);
            push_str(&mut line, " chunks) - ");
            match &source.last_indexed {
                Some(t) => push_str(&mut line, t.as_str()),
                None => push_str(&mut line, "Never"),
            }
            let ghost before = strings(r@);
            r.push(string_of(&line));
            assert(strings(r@) =~= before.push(source_line(self.sources@[i as int])));
            assert(sources_report(self.sources@.take(i + 1)) =~= sources_report(
                self.sources@.take(i as int),
            ).push(source_line(self.sources@[i as int])));
            i = i + 1;
        }
        assert(self.sources@.take(self.sources@.len() as int) =~= self.sources@);
        r
    }

    /// The chunks found for a query, best first, at most `limit`.
    pub fn search_context(&self, query: &str, limit: usize) -> (r: Vec<DocumentChunk>)
        requires
            self.vector_store.well_formed(),
        ensures
            models(r@) == search_results(self.vector_store.model(), query@, None, limit as nat),
            all_valid(r@),
    {
        let config = SearchConfig { top_k: limit, score_threshold: None };
        self.vector_store.search_chunks(query, &config)
    }

    /// The most relevant of `chunks` for a query: one, or two where the best
    /// is only weakly relevant.
    pub fn filter_most_relevant_chunks(&self, chunks: &Vec<DocumentChunk>, query: &str) -> (r: Vec<
        DocumentChunk,
    >)
        ensures
            models(r@) == most_relevant(models(chunks@), query@),
    {
        let ghost ms = models(chunks@);
        let query_words = lower_word_list(query);
        let base: u128 = if query_words.len() == 0 {
            1
        } else {
            query_words.len() as u128
        };
        let mut keys: Vec<u128> = Vec::new();
        let mut keep: Vec<bool> = Vec::new();
        let mut i: usize = 0;
        while i < chunks.len()
            invariant
                i <= chunks.len(),
                ms == models(chunks@),
                texts(query_words@) == lower_words(query@),
                base == word_base(query@),
                base <= usize::MAX,
                keys@.len() == i,
                keep@.len() == i,
                forall|k: int| 0 <= k < i ==> #[trigger] keys@[k] == relevance_keys(ms, query@)[k],
                forall|k: int| 0 <= k < i ==> #[trigger] keep@[k],
            decreases chunks.len() - i,
        {
            let c = &chunks[i];
            let content_words = lower_word_list(c.content.as_str());
            let content_lower = lower_chars(c.content.as_str());
            let hits = count_word_hits(&query_words, &content_words);
            let bonus: u128 = if chars_contain(&content_lower, "ibmcloud") || chars_contain(
                &content_lower,
                "cli",
            ) || chars_contain(&content_lower, "command") {
                2 * base
            } else {
                0
            };
            let content = chars_of(c.content.as_str());
            let short: u128 = if content.len() > LONG_CHUNK_CHARS {
                0
            } else {
                base
            };
            keys.push(10 * (hits as u128) + bonus + short);
            keep.push(true);
            i = i + 1;
        }
        assert(keys@ =~= relevance_keys(ms, query@));
        assert(keep@ =~= all_true(ms.len()));
        let order = rank(&keys, &keep, 2);
        proof {
            crate::ranking::lemma_plain_ranking(order@, keys@, keep@, 2);
        }
        let mut r: Vec<DocumentChunk> = Vec::new();
        if order.len() > 0 {
            r.push(chunks[order[0]].duplicate());
            if order.len() > 1 && chunks.len() > 1 && keys[order[0]] <= 4 * base {
                r.push(chunks[order[1]].duplicate());
            }
        }
        r
    }

    /// The context for a query: the most relevant of the chunks found for
    /// it, numbered, between a heading and a closing line; nothing where
    /// nothing is found.
    pub fn get_cli_context(&self, query: &str) -> (r: String)
        requires
            self.vector_store.well_formed(),
        ensures
            r@ == cli_context_for(self.vector_store.model(), query@),
    {
        let relevant = self.search_context(query, CONTEXT_SEARCH_LIMIT);
        if relevant.len() == 0 {
            return String::new();
        }
        let filtered = self.filter_most_relevant_chunks(&relevant, query);
        let ghost fm = models(filtered@);
        let mut out: Vec<char> = Vec::new();
        push_str(&mut out, "\n--- Relevant Context ---\n");
        let ghost head = out@;
        let mut i: usize = 0;
        while i < filtered.len()
            invariant
                i <= filtered.len(),
                fm == models(filtered@),
                out@ == head + context_lines(fm, i as int),
            decreases filtered.len() - i,
        {
            push_str(&mut out, "\n");
            push_decimal(&mut out, i + 1);
            push_str(&mut out, ". ");
            push_str(&mut out, filtered[i].content.as_str());
            if i < filtered.len() - 1 {
                push_str(&mut out, "\n");
            }
            i = i + 1;
        }
        push_str(&mut out, "\n--- End Context ---\n");
        string_of(&out)
    }
}

} // verus!
