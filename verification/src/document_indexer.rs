//! Indexing whole documents in pieces of a fixed size.
//!
//! A document is cut into pieces of a configured number of characters, each
//! of which begins a configured number of characters before the end of the
//! one before it, and every piece is stored as a chunk of its own.

use vstd::prelude::*;
use crate::document::{ChunkModel, DocumentChunk};
use crate::error::Error;
use crate::store::{put_all, put_model, LocalVectorStore, VectorStore};
use crate::string_map::{keys_with, values_with, StringMap};
use crate::text::{
    chars_of, decimal, decimal_string, push_decimal, push_str, slice_of, string_of, strings,
};

verus! {

/// A document to be indexed.
#[derive(Debug)]
pub struct Document {
    pub id: String,
    pub title: String,
    pub content: String,
    pub url: Option<String>,
    pub metadata: StringMap<String>,
}

/// How an indexing run ended.
#[derive(Debug)]
pub struct IndexingResult {
    pub documents_indexed: usize,
    pub documents_failed: usize,
    pub errors: Vec<String>,
}

impl IndexingResult {
    /// The result of a run in which nothing has happened yet.
    pub fn new() -> (r: Self)
        ensures
            r.documents_indexed == 0,
            r.documents_failed == 0,
            r.errors@.len() == 0,
    {
        IndexingResult { documents_indexed: 0, documents_failed: 0, errors: Vec::new() }
    }

    /// Counts `count` more chunks as indexed. The count stops at the
    /// largest number that can be counted.
    pub fn record_indexed(&mut self, count: usize)
        ensures
            final(self).documents_indexed == counted((old(self).documents_indexed + count) as nat),
            final(self).documents_failed == old(self).documents_failed,
            final(self).errors == old(self).errors,
    {
        self.documents_indexed = self.documents_indexed.saturating_add(count);
    }

    /// Counts one more source as failed, and keeps what is said of the
    /// failure: the address of the source and the error.
    pub fn record_failed_url(&mut self, url: &str, error: &str)
        ensures
            final(self).documents_indexed == old(self).documents_indexed,
            final(self).documents_failed == counted((old(self).documents_failed + 1) as nat),
            strings(final(self).errors@) == strings(old(self).errors@).push(
                "Failed to index URL "@ + url@ + ": "@ + error@,
            ),
    {
        let mut message: Vec<char> = Vec::new();
        push_str(&mut message, "Failed to index URL ");
        push_str(&mut message, url);
        push_str(&mut message, ": ");
        push_str(&mut message, error);
        self.errors.push(string_of(&message));
        self.documents_failed = self.documents_failed.saturating_add(1);
    }
}

/// How documents are cut.
#[derive(Debug)]
pub struct IndexingConfig {
    /// The number of characters of a piece.
    pub chunk_size: usize,
    /// The number of characters that a piece shares with the one before it.
    pub chunk_overlap: usize,
    /// The number of documents that are handled together.
    pub batch_size: usize,
}

impl Default for IndexingConfig {
    fn default() -> (c: Self)
        ensures
            c.chunk_size == 1000,
            c.chunk_overlap == 200,
            c.batch_size == 10,
    {
        IndexingConfig { chunk_size: 1000, chunk_overlap: 200, batch_size: 10 }
    }
}

impl IndexingConfig {
    /// A configuration is usable where a piece is longer than what it
    /// shares with the one before it, so that cutting moves on.
    pub open spec fn usable(&self) -> bool {
        self.chunk_overlap < self.chunk_size
    }
}

/// The pieces of `content` from position `start` on.
pub open spec fn pieces(content: Seq<char>, size: nat, overlap: nat, start: int) -> Seq<Seq<char>>
    decreases content.len() - start,
{
    if start < 0 || start >= content.len() || overlap >= size {
        Seq::empty()
    } else if start + size >= content.len() {
        seq![content.subrange(start, content.len() as int)]
    } else {
        seq![content.subrange(start, start + size)] + pieces(
            content,
            size,
            overlap,
            start + size - overlap,
        )
    }
}

/// Every piece is at most as long as the configured size.
pub proof fn lemma_piece_size(content: Seq<char>, size: nat, overlap: nat, start: int, k: int)
    requires
        0 <= k < pieces(content, size, overlap, start).len(),
    ensures
        pieces(content, size, overlap, start)[k].len() <= size,
    decreases content.len() - start,
{
    if 0 <= start && start + size < content.len() && overlap < size && k > 0 {
        lemma_piece_size(content, size, overlap, start + size - overlap, k - 1);
    }
}

/// The identifier of piece `i` of the document `id`.
pub open spec fn piece_id(id: Seq<char>, i: nat) -> Seq<char> {
    id + seq!['_'] + decimal(i)
}

/// The keys and values of the metadata `(keys, values)` with `value` stored
/// under `key`.
pub open spec fn with_entry(
    m: (Seq<Seq<char>>, Seq<Seq<char>>),
    key: Seq<char>,
    value: Seq<char>,
) -> (Seq<Seq<char>>, Seq<Seq<char>>) {
    (keys_with(m.0, key), values_with(m.0, m.1, key, value))
}

/// The metadata of piece `i` of `total`: that of the document, with the
/// number of the piece, the number of pieces, the title, and the address
/// where the document has one.
pub open spec fn piece_metadata(
    base: (Seq<Seq<char>>, Seq<Seq<char>>),
    i: nat,
    total: nat,
    title: Seq<char>,
    url: Option<Seq<char>>,
) -> (Seq<Seq<char>>, Seq<Seq<char>>) {
    let m = with_entry(
        with_entry(with_entry(base, "chunk_index"@, decimal(i)), "total_chunks"@, decimal(total)),
        "title"@,
        title,
    );
    match url {
        Some(u) => with_entry(m, "url"@, u),
        None => m,
    }
}

/// A document, as mathematical values.
pub struct DocumentModel {
    pub id: Seq<char>,
    pub title: Seq<char>,
    pub content: Seq<char>,
    pub url: Option<Seq<char>>,
    pub keys: Seq<Seq<char>>,
    pub values: Seq<Seq<char>>,
}

impl View for Document {
    type V = DocumentModel;

    open spec fn view(&self) -> DocumentModel {
        DocumentModel {
            id: self.id@,
            title: self.title@,
            content: self.content@,
            url: match self.url {
                Some(u) => Some(u@),
                None => None,
            },
            keys: self.metadata.keys(),
            values: self.metadata.value_texts(),
        }
    }
}

/// The chunks that a document gives under a configuration.
pub open spec fn document_chunks(d: DocumentModel, size: nat, overlap: nat) -> Seq<ChunkModel> {
    let parts = pieces(d.content, size, overlap, 0);
    Seq::new(
        parts.len(),
        |i: int|
            {
                let m = piece_metadata((d.keys, d.values), i as nat, parts.len(), d.title, d.url);
                ChunkModel {
                    id: piece_id(d.id, i as nat),
                    content: parts[i],
                    source: match d.url {
                        Some(u) => u,
                        None => d.title,
                    },
                    keys: m.0,
                    values: m.1,
                    embedding: Seq::empty(),
                }
            },
    )
}

/// The indexer of whole documents.
pub struct LocalDocumentIndexer {
    pub config: IndexingConfig,
}

impl LocalDocumentIndexer {
    /// An indexer with the default configuration.
    pub fn new() -> (r: Self)
        ensures
            r.config.chunk_size == 1000,
            r.config.chunk_overlap == 200,
            r.config.batch_size == 10,
            r.config.usable(),
    {
        LocalDocumentIndexer { config: IndexingConfig::default() }
    }

    /// An indexer with the configuration `config`.
    pub fn with_config(config: IndexingConfig) -> (r: Self)
        ensures
            r.config == config,
    {
        LocalDocumentIndexer { config }
    }

    /// The pieces of `content`. An unusable configuration gives none.
    pub fn chunk_document(&self, content: &str) -> (r: Vec<String>)
        ensures
            strings(r@) == pieces(
                content@,
                self.config.chunk_size as nat,
                self.config.chunk_overlap as nat,
                0,
            ),
            forall|k: int|
                0 <= k < r@.len() ==> (#[trigger] r@[k])@.len() <= self.config.chunk_size,
    {
        let chars = chars_of(content);
        let size = self.config.chunk_size;
        let overlap = self.config.chunk_overlap;
        let mut r: Vec<String> = Vec::new();
        let ghost all = pieces(content@, size as nat, overlap as nat, 0);
        if overlap >= size {
            return r;
        }
        let mut start: usize = 0;
        while start < chars.len()
            invariant
                chars@ == content@,
                overlap < size,
                size == self.config.chunk_size,
                overlap == self.config.chunk_overlap,
                strings(r@) + pieces(content@, size as nat, overlap as nat, start as int) == all,
            decreases chars.len() - start,
        {
            if size >= chars.len() - start {
                let piece = slice_of(&chars, start, chars.len());
                r.push(string_of(&piece));
                start = chars.len();
            } else {
                let end = start + size;
                let piece = slice_of(&chars, start, end);
                r.push(string_of(&piece));
                start = end - overlap;
            }
        }
        proof {
            assert forall|k: int| 0 <= k < r@.len() implies (#[trigger] r@[k])@.len()
                <= self.config.chunk_size by {
                lemma_piece_size(content@, size as nat, overlap as nat, 0, k);
            }
        }
        r
    }

    /// What is told of the indexer over `store`: how many chunks the store
    /// holds, the size of a piece, and how much two neighbouring pieces share.
    pub fn stats(&self, store: &LocalVectorStore) -> (r: (usize, usize, usize))
        ensures
            r.0 == store.model().len(),
            r.1 == self.config.chunk_size,
            r.2 == self.config.chunk_overlap,
    {
        (store.count(), self.config.chunk_size, self.config.chunk_overlap)
    }

    /// Indexes a document: offers every piece of it to the store as a chunk
    /// of its own, and reports how many chunks the store took, how many it
    /// refused, and what it said of each refusal. A store that refuses
    /// nothing holds all pieces afterwards.
    pub fn index_document<V: VectorStore>(&self, store: &mut V, document: &Document) -> (r:
        IndexingResult)
        requires
            old(store).valid(),
            document.metadata.well_formed(),
        ensures
            final(store).valid(),
            exists|outcomes: Seq<Option<Error>>| #[trigger]
                indexing_gives(
                    old(store).contents(),
                    final(store).contents(),
                    document_chunks(
                        document@,
                        self.config.chunk_size as nat,
                        self.config.chunk_overlap as nat,
                    ),
                    outcomes,
                    r,
                ),
            old(store).takes_all() ==> ({
                let chunks = document_chunks(
                    document@,
                    self.config.chunk_size as nat,
                    self.config.chunk_overlap as nat,
                );
                &&& final(store).takes_all()
                &&& final(store).contents() == put_all(
                    old(store).contents(),
                    chunks,
                    chunks.len() as int,
                )
                &&& r.documents_indexed == chunks.len()
                &&& r.documents_failed == 0
                &&& r.errors@.len() == 0
            }),
    {
        let parts = self.chunk_document(document.content.as_str());
        let ghost expected = document_chunks(
            document@,
            self.config.chunk_size as nat,
            self.config.chunk_overlap as nat,
        );
        let ghost before = store.contents();
        let ghost reliable = store.takes_all();
        let ghost mut outcomes: Seq<Option<Error>> = Seq::empty();
        let total = decimal_string(parts.len());
        let source = match &document.url {
            Some(u) => u.clone(),
            None => document.title.clone(),
        };
        let mut indexed: usize = 0;
        let mut failed: usize = 0;
        let mut errors: Vec<String> = Vec::new();
        let mut i: usize = 0;
        while i < parts.len()
            invariant
                i <= parts.len(),
                document.metadata.well_formed(),
                total@ == decimal(parts@.len() as nat),
                strings(parts@) == pieces(
                    document@.content,
                    self.config.chunk_size as nat,
                    self.config.chunk_overlap as nat,
                    0,
                ),
                source@ == (match document@.url {
                    Some(u) => u,
                    None => document@.title,
                }),
                expected == document_chunks(
                    document@,
                    self.config.chunk_size as nat,
                    self.config.chunk_overlap as nat,
                ),
                expected.len() == parts@.len(),
                store.valid(),
                outcomes.len() == i,
                store.contents() == offered(before, expected, outcomes, i as int),
                indexed == stored_count(outcomes, i as int),
                indexed + failed == i,
                strings(errors@) == failure_lines(outcomes, i as int),
                reliable ==> store.takes_all() && forall|k: int|
                    0 <= k < i ==> (#[trigger] outcomes[k]) is None,
            decreases parts.len() - i,
        {
            let mut id: Vec<char> = Vec::new();
            push_str(&mut id, document.id.as_str());
            id.push('_');
            push_decimal(&mut id, i);
            assert(id@ =~= piece_id(document@.id, i as nat));
            let mut metadata = document.metadata.duplicate();
            let index = decimal_string(i);
            metadata.set("chunk_index", index.as_str());
            metadata.set("total_chunks", total.as_str());
            metadata.set("title", document.title.as_str());
            match &document.url {
                Some(u) => {
                    metadata.set("url", u.as_str());
                },
                None => {},
            }
            let c = DocumentChunk {
                id: string_of(&id),
                content: parts[i].clone(),
                source: source.clone(),
                metadata,
                embedding: Vec::new(),
            };
            assert(c@ == expected[i as int]);
            let ghost sofar = outcomes;
            let ghost told = strings(errors@);
            match store.store(c) {
                Ok(_) => {
                    indexed = indexed + 1;
                    proof {
                        outcomes = sofar.push(None);
                    }
                },
                Err(e) => {
                    failed = failed + 1;
                    let mut line: Vec<char> = Vec::new();
                    push_str(&mut line, "Failed to store chunk ");
                    push_decimal(&mut line, i);
                    push_str(&mut line, ": ");
                    let said = e.to_string();
                    push_str(&mut line, said.as_str());
                    assert(line@ =~= failure_line(i as nat, e));
                    errors.push(string_of(&line));
                    assert(strings(errors@) =~= told.push(failure_line(i as nat, e)));
                    proof {
                        outcomes = sofar.push(Some(e));
                    }
                },
            }
            proof {
                lemma_outcomes_prefix(before, expected, sofar, outcomes, i as int);
            }
            i = i + 1;
        }
        let r = IndexingResult { documents_indexed: indexed, documents_failed: failed, errors };
        proof {
            assert(indexing_gives(before, store.contents(), expected, outcomes, r));
            if reliable {
                lemma_all_taken(before, expected, outcomes, parts@.len() as int);
            }
        }
        r
    }

    /// Indexes the documents one after another, and reports how many chunks
    /// the store took in all, how many it refused, and what it said of each
    /// refusal. A store that refuses nothing holds all pieces afterwards.
    pub fn index_documents<V: VectorStore>(&self, store: &mut V, documents: &Vec<Document>) -> (r:
        IndexingResult)
        requires
            old(store).valid(),
            forall|i: int| 0 <= i < documents@.len() ==> (#[trigger] documents@[i]).metadata.well_formed(),
        ensures
            final(store).valid(),
            exists|runs: Seq<Seq<Option<Error>>>| #[trigger]
                runs_give(
                    old(store).contents(),
                    final(store).contents(),
                    document_models(documents@),
                    self.config.chunk_size as nat,
                    self.config.chunk_overlap as nat,
                    runs,
                    r,
                ),
            old(store).takes_all() ==> {
                &&& final(store).takes_all()
                &&& final(store).contents() == with_documents(
                    old(store).contents(),
                    document_models(documents@),
                    self.config.chunk_size as nat,
                    self.config.chunk_overlap as nat,
                    documents@.len() as int,
                )
                &&& r.documents_indexed == counted(
                    chunk_count(
                        document_models(documents@),
                        self.config.chunk_size as nat,
                        self.config.chunk_overlap as nat,
                        documents@.len() as int,
                    ),
                )
                &&& r.documents_failed == 0
                &&& r.errors@.len() == 0
            },
    {
        let mut result = IndexingResult::new();
        let ghost ms = document_models(documents@);
        let ghost size = self.config.chunk_size as nat;
        let ghost overlap = self.config.chunk_overlap as nat;
        let ghost before = store.contents();
        let ghost reliable = store.takes_all();
        let ghost mut runs: Seq<Seq<Option<Error>>> = Seq::empty();
        assert(strings(result.errors@) =~= Seq::<Seq<char>>::empty());
        let mut i: usize = 0;
        while i < documents.len()
            invariant
                i <= documents.len(),
                ms == document_models(documents@),
                size == self.config.chunk_size as nat,
                overlap == self.config.chunk_overlap as nat,
                forall|k: int|
                    0 <= k < documents@.len() ==> (#[trigger] documents@[k]).metadata.well_formed(),
                store.valid(),
                runs.len() == i,
                forall|k: int|
                    0 <= k < i ==> (#[trigger] runs[k]).len() == document_chunks(
                        ms[k],
                        size,
                        overlap,
                    ).len(),
                store.contents() == documents_offered(before, ms, size, overlap, runs, i as int),
                result.documents_indexed == counted(total_stored(runs, i as int)),
                result.documents_failed == counted(total_refused(runs, i as int)),
                strings(result.errors@) == all_failure_lines(runs, i as int),
                reliable ==> {
                    &&& store.takes_all()
                    &&& store.contents() == with_documents(before, ms, size, overlap, i as int)
                    &&& total_stored(runs, i as int) == chunk_count(ms, size, overlap, i as int)
                    &&& total_refused(runs, i as int) == 0
                    &&& result.errors@.len() == 0
                },
            decreases documents.len() - i,
        {
            let ghost held = store.contents();
            let ghost sofar = runs;
            let one = self.index_document(store, &documents[i]);
            let ghost chunks = document_chunks(ms[i as int], size, overlap);
            let ghost outcomes = choose|outcomes: Seq<Option<Error>>|
                indexing_gives(held, store.contents(), chunks, outcomes, one);
            proof {
                runs = sofar.push(outcomes);
                lemma_runs_prefix(before, ms, size, overlap, sofar, runs, i as int);
                lemma_outcomes_prefix(held, chunks, outcomes, outcomes, chunks.len() as int);
            }
            result.documents_indexed = result.documents_indexed.saturating_add(
                one.documents_indexed,
            );
            result.documents_failed = result.documents_failed.saturating_add(one.documents_failed);
            let ghost told = strings(result.errors@);
            let ghost counts = (result.documents_indexed, result.documents_failed);
            assert(counts.0 == counted(total_stored(runs, i + 1)));
            assert(counts.1 == counted(total_refused(runs, i + 1)));
            let mut k: usize = 0;
            while k < one.errors.len()
                invariant
                    k <= one.errors.len(),
                    counts == (result.documents_indexed, result.documents_failed),
                    strings(result.errors@) == told + strings(one.errors@).take(k as int),
                decreases one.errors.len() - k,
            {
                let ghost kept = strings(result.errors@);
                result.errors.push(one.errors[k].clone());
                assert(strings(result.errors@) =~= kept.push(one.errors@[k as int]@));
                assert(strings(one.errors@).take(k + 1) =~= strings(one.errors@).take(k as int).push(
                    one.errors@[k as int]@,
                ));
                k = k + 1;
            }
            assert(strings(one.errors@).take(one.errors@.len() as int) =~= strings(one.errors@));
            i = i + 1;
        }
        proof {
            assert(runs_give(before, store.contents(), ms, size, overlap, runs, result));
        }
        result
    }
}

/// What a store holds after the first `n` documents were indexed, one
/// after another, where `runs` tells for each document what the store
/// answered to each of its chunks.
pub open spec fn documents_offered(
    before: Seq<ChunkModel>,
    documents: Seq<DocumentModel>,
    size: nat,
    overlap: nat,
    runs: Seq<Seq<Option<Error>>>,
    n: int,
) -> Seq<ChunkModel>
    decreases n,
{
    if n <= 0 {
        before
    } else {
        let chunks = document_chunks(documents[n - 1], size, overlap);
        offered(
            documents_offered(before, documents, size, overlap, runs, n - 1),
            chunks,
            runs[n - 1],
            chunks.len() as int,
        )
    }
}

/// How many chunks of the first `n` documents the store took.
pub open spec fn total_stored(runs: Seq<Seq<Option<Error>>>, n: int) -> nat
    decreases n,
{
    if n <= 0 {
        0
    } else {
        total_stored(runs, n - 1) + stored_count(runs[n - 1], runs[n - 1].len() as int)
    }
}

/// How many chunks of the first `n` documents the store refused.
pub open spec fn total_refused(runs: Seq<Seq<Option<Error>>>, n: int) -> nat
    decreases n,
{
    if n <= 0 {
        0
    } else {
        (total_refused(runs, n - 1) + runs[n - 1].len() - stored_count(
            runs[n - 1],
            runs[n - 1].len() as int,
        )) as nat
    }
}

/// What is said of the chunks of the first `n` documents that the store
/// refused, document by document.
pub open spec fn all_failure_lines(runs: Seq<Seq<Option<Error>>>, n: int) -> Seq<Seq<char>>
    decreases n,
{
    if n <= 0 {
        Seq::empty()
    } else {
        all_failure_lines(runs, n - 1) + failure_lines(runs[n - 1], runs[n - 1].len() as int)
    }
}

/// Indexing `documents` in a store that held `before`, with the answers
/// `runs`, leaves the store with `after` and gives the result `r`: every
/// document's chunks are offered in turn, and the counts, as far as they
/// can be counted, and the lines of the documents are put together.
pub open spec fn runs_give(
    before: Seq<ChunkModel>,
    after: Seq<ChunkModel>,
    documents: Seq<DocumentModel>,
    size: nat,
    overlap: nat,
    runs: Seq<Seq<Option<Error>>>,
    r: IndexingResult,
) -> bool {
    let n = documents.len() as int;
    &&& runs.len() == documents.len()
    &&& forall|k: int|
        0 <= k < n ==> (#[trigger] runs[k]).len() == document_chunks(documents[k], size, overlap).len()
    &&& after == documents_offered(before, documents, size, overlap, runs, n)
    &&& r.documents_indexed == counted(total_stored(runs, n))
    &&& r.documents_failed == counted(total_refused(runs, n))
    &&& strings(r.errors@) == all_failure_lines(runs, n)
}

/// What is told of the first `n` documents depends on the first `n` runs only.
pub proof fn lemma_runs_prefix(
    before: Seq<ChunkModel>,
    documents: Seq<DocumentModel>,
    size: nat,
    overlap: nat,
    a: Seq<Seq<Option<Error>>>,
    b: Seq<Seq<Option<Error>>>,
    n: int,
)
    requires
        0 <= n <= a.len(),
        n <= b.len(),
        forall|k: int| 0 <= k < n ==> a[k] == b[k],
    ensures
        documents_offered(before, documents, size, overlap, a, n) == documents_offered(
            before,
            documents,
            size,
            overlap,
            b,
            n,
        ),
        total_stored(a, n) == total_stored(b, n),
        total_refused(a, n) == total_refused(b, n),
        all_failure_lines(a, n) == all_failure_lines(b, n),
    decreases n,
{
    if n > 0 {
        lemma_runs_prefix(before, documents, size, overlap, a, b, n - 1);
    }
}

/// What a store holds after the first `n` chunks of `chunks` were offered
/// to it, one after another, where `outcomes` tells for each chunk what the
/// store answered: nothing where it took the chunk, and else its error. A
/// chunk that was taken stands in place of any with the same identifier.
pub open spec fn offered(
    before: Seq<ChunkModel>,
    chunks: Seq<ChunkModel>,
    outcomes: Seq<Option<Error>>,
    n: int,
) -> Seq<ChunkModel>
    decreases n,
{
    if n <= 0 {
        before
    } else if outcomes[n - 1] is None {
        put_model(offered(before, chunks, outcomes, n - 1), chunks[n - 1])
    } else {
        offered(before, chunks, outcomes, n - 1)
    }
}

/// How many of the first `n` chunks the store took.
pub open spec fn stored_count(outcomes: Seq<Option<Error>>, n: int) -> nat
    decreases n,
{
    if n <= 0 {
        0
    } else {
        stored_count(outcomes, n - 1) + if outcomes[n - 1] is None {
            1nat
        } else {
            0nat
        }
    }
}

/// What is said of chunk number `i`, which the store refused with `e`.
pub open spec fn failure_line(i: nat, e: Error) -> Seq<char> {
    "Failed to store chunk "@ + decimal(i) + ": "@ + e.label() + e.detail()
}

/// What is said of those of the first `n` chunks that the store refused,
/// in order.
pub open spec fn failure_lines(outcomes: Seq<Option<Error>>, n: int) -> Seq<Seq<char>>
    decreases n,
{
    if n <= 0 {
        Seq::empty()
    } else {
        match outcomes[n - 1] {
            Some(e) => failure_lines(outcomes, n - 1).push(failure_line((n - 1) as nat, e)),
            None => failure_lines(outcomes, n - 1),
        }
    }
}

/// Offering `chunks` to a store that held `before`, with the answers
/// `outcomes`, leaves the store with `after` and gives the result `r`: the
/// chunks that were taken are stored and counted as indexed, and the others
/// are counted as failed, each with a line that tells of its error.
pub open spec fn indexing_gives(
    before: Seq<ChunkModel>,
    after: Seq<ChunkModel>,
    chunks: Seq<ChunkModel>,
    outcomes: Seq<Option<Error>>,
    r: IndexingResult,
) -> bool {
    let n = chunks.len() as int;
    &&& outcomes.len() == chunks.len()
    &&& after == offered(before, chunks, outcomes, n)
    &&& r.documents_indexed == stored_count(outcomes, n)
    &&& r.documents_failed == n - stored_count(outcomes, n)
    &&& strings(r.errors@) == failure_lines(outcomes, n)
}

/// What is told of the first `n` chunks depends on the first `n` answers only.
pub proof fn lemma_outcomes_prefix(
    before: Seq<ChunkModel>,
    chunks: Seq<ChunkModel>,
    a: Seq<Option<Error>>,
    b: Seq<Option<Error>>,
    n: int,
)
    requires
        0 <= n <= a.len(),
        n <= b.len(),
        forall|k: int| 0 <= k < n ==> a[k] == b[k],
    ensures
        offered(before, chunks, a, n) == offered(before, chunks, b, n),
        stored_count(a, n) == stored_count(b, n),
        failure_lines(a, n) == failure_lines(b, n),
        stored_count(a, n) <= n,
    decreases n,
{
    if n > 0 {
        lemma_outcomes_prefix(before, chunks, a, b, n - 1);
    }
}

/// Where the store took every one of the first `n` chunks, it holds what
/// putting them gives, all are counted, and nothing is said of a failure.
pub proof fn lemma_all_taken(
    before: Seq<ChunkModel>,
    chunks: Seq<ChunkModel>,
    outcomes: Seq<Option<Error>>,
    n: int,
)
    requires
        0 <= n <= outcomes.len(),
        forall|k: int| 0 <= k < n ==> (#[trigger] outcomes[k]) is None,
    ensures
        offered(before, chunks, outcomes, n) == put_all(before, chunks, n),
        stored_count(outcomes, n) == n,
        failure_lines(outcomes, n) == Seq::<Seq<char>>::empty(),
    decreases n,
{
    if n > 0 {
        lemma_all_taken(before, chunks, outcomes, n - 1);
    }
}

/// A count as far as it can be counted.
pub open spec fn counted(n: nat) -> usize {
    if n > usize::MAX {
        usize::MAX
    } else {
        n as usize
    }
}

/// The number of chunks that the first `n` documents give.
pub open spec fn chunk_count(documents: Seq<DocumentModel>, size: nat, overlap: nat, n: int) -> nat
    decreases n,
{
    if n <= 0 {
        0
    } else {
        chunk_count(documents, size, overlap, n - 1) + document_chunks(
            documents[n - 1],
            size,
            overlap,
        ).len()
    }
}

/// The models of the documents of `v`, in order.
pub open spec fn document_models(v: Seq<Document>) -> Seq<DocumentModel> {
    Seq::new(v.len(), |i: int| v[i]@)
}

/// The stored chunks after the first `n` documents are indexed, one after
/// another.
pub open spec fn with_documents(
    docs: Seq<ChunkModel>,
    documents: Seq<DocumentModel>,
    size: nat,
    overlap: nat,
    n: int,
) -> Seq<ChunkModel>
    decreases n,
{
    if n <= 0 {
        docs
    } else {
        let chunks = document_chunks(documents[n - 1], size, overlap);
        put_all(with_documents(docs, documents, size, overlap, n - 1), chunks, chunks.len() as int)
    }
}

} // verus!
