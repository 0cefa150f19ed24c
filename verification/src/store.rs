//! The document store: chunks by identifier, in insertion order.

use vstd::prelude::*;
use crate::document::{all_valid, models, ChunkModel, DocumentChunk};
use crate::error::Error;
use crate::text::str_eq;

verus! {

/// The length of every embedding the store works with.
pub const EMBEDDING_DIMENSION: usize = 384;

/// Some chunk of `m` has the identifier `id`.
pub open spec fn model_has(m: Seq<ChunkModel>, id: Seq<char>) -> bool {
    exists|i: int| 0 <= i < m.len() && (#[trigger] m[i]).id == id
}

/// The position in `m` of the chunk with the identifier `id`, where there is one.
pub open spec fn model_position(m: Seq<ChunkModel>, id: Seq<char>) -> int {
    choose|i: int| 0 <= i < m.len() && (#[trigger] m[i]).id == id
}

/// No two chunks of `m` share an identifier.
pub open spec fn distinct_ids(m: Seq<ChunkModel>) -> bool {
    forall|i: int, j: int| 0 <= i < j < m.len() ==> (#[trigger] m[i]).id != (#[trigger] m[j]).id
}

/// The chunks after `c` is put: a chunk with the same identifier leaves, and
/// `c` goes to the end.
pub open spec fn put_model(m: Seq<ChunkModel>, c: ChunkModel) -> Seq<ChunkModel> {
    if model_has(m, c.id) {
        m.remove(model_position(m, c.id)).push(c)
    } else {
        m.push(c)
    }
}

/// The chunks after the first `n` chunks of `cs` are put, one after another.
pub open spec fn put_all(m: Seq<ChunkModel>, cs: Seq<ChunkModel>, n: int) -> Seq<ChunkModel>
    decreases n,
{
    if n <= 0 {
        m
    } else {
        put_model(put_all(m, cs, n - 1), cs[n - 1])
    }
}

/// The chunks after the one with the identifier `id` is deleted.
pub open spec fn delete_model(m: Seq<ChunkModel>, id: Seq<char>) -> Seq<ChunkModel> {
    if model_has(m, id) {
        m.remove(model_position(m, id))
    } else {
        m
    }
}

/// Among distinct identifiers, the chunk at position `i` is the one its
/// identifier leads to.
pub proof fn lemma_model_position(m: Seq<ChunkModel>, i: int)
    requires
        distinct_ids(m),
        0 <= i < m.len(),
    ensures
        model_has(m, m[i].id),
        model_position(m, m[i].id) == i,
{
    let p = model_position(m, m[i].id);
    if p != i {
        assert(m[p].id != m[i].id);
    }
}

/// Putting a chunk keeps the identifiers distinct, makes its identifier
/// present, and leaves the presence of every other identifier as it was. The
/// count stays where the identifier was present, and grows by one where not.
pub proof fn lemma_put_model(m: Seq<ChunkModel>, c: ChunkModel)
    requires
        distinct_ids(m),
    ensures
        distinct_ids(put_model(m, c)),
        model_has(put_model(m, c), c.id),
        forall|id: Seq<char>| id != c.id ==> model_has(put_model(m, c), id) == model_has(m, id),
        model_has(m, c.id) ==> put_model(m, c).len() == m.len(),
        !model_has(m, c.id) ==> put_model(m, c).len() == m.len() + 1,
        put_model(m, c).last() == c,
{
    let r = put_model(m, c);
    if model_has(m, c.id) {
        let p = model_position(m, c.id);
        assert(r[r.len() - 1].id == c.id);
        assert forall|id: Seq<char>| id != c.id implies model_has(r, id) == model_has(m, id) by {
            if model_has(m, id) {
                let q = model_position(m, id);
                if q < p {
                    assert(r[q].id == id);
                } else {
                    assert(r[q - 1].id == id);
                }
            }
        }
    } else {
        assert(r[r.len() - 1].id == c.id);
        assert forall|id: Seq<char>| id != c.id implies model_has(r, id) == model_has(m, id) by {
            if model_has(m, id) {
                let q = model_position(m, id);
                assert(r[q].id == id);
            }
        }
    }
}

/// After the first `n` chunks of `cs` are put, the identifiers are distinct,
/// each of those chunks' identifiers is present, and so is every identifier
/// that was present before.
pub proof fn lemma_put_all(m: Seq<ChunkModel>, cs: Seq<ChunkModel>, n: int)
    requires
        distinct_ids(m),
        0 <= n <= cs.len(),
    ensures
        distinct_ids(put_all(m, cs, n)),
        forall|k: int| 0 <= k < n ==> model_has(put_all(m, cs, n), (#[trigger] cs[k]).id),
        forall|id: Seq<char>| model_has(m, id) ==> model_has(put_all(m, cs, n), id),
        put_all(m, cs, n).len() >= m.len(),
    decreases n,
{
    if n > 0 {
        lemma_put_all(m, cs, n - 1);
        lemma_put_model(put_all(m, cs, n - 1), cs[n - 1]);
    }
}

/// Putting chunks whose identifiers are all present leaves the count as it was.
pub proof fn lemma_put_all_present(m: Seq<ChunkModel>, cs: Seq<ChunkModel>, n: int)
    requires
        distinct_ids(m),
        0 <= n <= cs.len(),
        forall|k: int| 0 <= k < cs.len() ==> model_has(m, (#[trigger] cs[k]).id),
    ensures
        put_all(m, cs, n).len() == m.len(),
        forall|id: Seq<char>| model_has(put_all(m, cs, n), id) == model_has(m, id),
    decreases n,
{
    if n > 0 {
        lemma_put_all_present(m, cs, n - 1);
        lemma_put_all(m, cs, n - 1);
        lemma_put_model(put_all(m, cs, n - 1), cs[n - 1]);
    }
}

/// Idempotent re-indexing: putting the same chunks a second time leaves the
/// number of stored chunks as it was after the first time.
pub proof fn lemma_reindex_keeps_count(m: Seq<ChunkModel>, cs: Seq<ChunkModel>)
    requires
        distinct_ids(m),
    ensures
        put_all(put_all(m, cs, cs.len() as int), cs, cs.len() as int).len() == put_all(
            m,
            cs,
            cs.len() as int,
        ).len(),
{
    let once = put_all(m, cs, cs.len() as int);
    lemma_put_all(m, cs, cs.len() as int);
    lemma_put_all_present(once, cs, cs.len() as int);
}

/// Putting chunks with distinct identifiers into an empty store gives back
/// those chunks, in order.
pub proof fn lemma_put_all_distinct(cs: Seq<ChunkModel>, n: int)
    requires
        distinct_ids(cs),
        0 <= n <= cs.len(),
    ensures
        put_all(Seq::empty(), cs, n) == cs.take(n),
    decreases n,
{
    if n > 0 {
        lemma_put_all_distinct(cs, n - 1);
    }
}

/// Round trip of a snapshot: a store that is loaded from the chunks of a
/// store holds those chunks again, in the same order.
pub proof fn lemma_snapshot_round_trip(m: Seq<ChunkModel>)
    requires
        distinct_ids(m),
    ensures
        put_all(Seq::empty(), m, m.len() as int) == m,
{
    lemma_put_all_distinct(m, m.len() as int);
}

/// What is told of a store that holds `count` chunks and is kept in the
/// file `data_file`, line by line.
pub open spec fn collection_info(count: nat, data_file: Seq<char>) -> Seq<Seq<char>> {
    seq![
        "📊 Local Vector Store Info:"@,
        "   Documents count: "@ + crate::text::decimal(count),
        "   Embedding dimension: "@ + crate::text::decimal(EMBEDDING_DIMENSION as nat),
        "   Data file: "@ + data_file,
    ]
}

/// A local store of document chunks.
pub struct LocalVectorStore {
    documents: Vec<DocumentChunk>,
}

impl LocalVectorStore {
    /// The stored chunks, in insertion order.
    pub closed spec fn docs(&self) -> Seq<DocumentChunk> {
        self.documents@
    }

    /// What the store holds, as mathematical values.
    pub open spec fn model(&self) -> Seq<ChunkModel> {
        models(self.docs())
    }

    /// Every stored chunk is valid, and no two share an identifier.
    pub open spec fn well_formed(&self) -> bool {
        all_valid(self.docs()) && distinct_ids(self.model())
    }

    /// An empty store.
    pub fn new() -> (s: Self)
        ensures
            s.well_formed(),
            s.docs().len() == 0,
            s.model() == Seq::<ChunkModel>::empty(),
    {
        let s = LocalVectorStore { documents: Vec::new() };
        assert(s.model() =~= Seq::<ChunkModel>::empty());
        s
    }

    /// A store that holds `documents`, put one after another.
    pub fn from_documents(documents: Vec<DocumentChunk>) -> (s: Self)
        requires
            all_valid(documents@),
        ensures
            s.well_formed(),
            s.model() == put_all(Seq::empty(), models(documents@), documents@.len() as int),
            distinct_ids(models(documents@)) ==> s.model() == models(documents@),
    {
        let mut s = LocalVectorStore::new();
        let mut i: usize = 0;
        while i < documents.len()
            invariant
                i <= documents.len(),
                all_valid(documents@),
                s.well_formed(),
                s.model() == put_all(Seq::empty(), models(documents@), i as int),
            decreases documents.len() - i,
        {
            let c = documents[i].duplicate();
            s.put(c);
            i = i + 1;
        }
        proof {
            if distinct_ids(models(documents@)) {
                lemma_snapshot_round_trip(models(documents@));
            }
        }
        s
    }

    /// The number of stored chunks.
    pub fn count(&self) -> (n: usize)
        ensures
            n == self.docs().len(),
            n == self.model().len(),
    {
        self.documents.len()
    }

    /// The stored chunks, in insertion order.
    pub fn all(&self) -> (r: &Vec<DocumentChunk>)
        ensures
            r@ == self.docs(),
    {
        &self.documents
    }

    /// The position of the chunk with the identifier `id`.
    pub fn find(&self, id: &str) -> (r: Option<usize>)
        requires
            self.well_formed(),
        ensures
            match r {
                Some(i) => i < self.docs().len() && model_has(self.model(), id@) && model_position(
                    self.model(),
                    id@,
                ) == i && self.docs()[i as int].id@ == id@,
                None => !model_has(self.model(), id@),
            },
    {
        let mut i: usize = 0;
        while i < self.documents.len()
            invariant
                i <= self.documents.len(),
                self.well_formed(),
                forall|k: int| 0 <= k < i ==> (#[trigger] self.model()[k]).id != id@,
            decreases self.documents.len() - i,
        {
            if str_eq(self.documents[i].id.as_str(), id) {
                proof {
                    lemma_model_position(self.model(), i as int);
                }
                return Some(i);
            }
            i = i + 1;
        }
        None
    }

    /// The chunk with the identifier `id`.
    pub fn get(&self, id: &str) -> (r: Option<&DocumentChunk>)
        requires
            self.well_formed(),
        ensures
            match r {
                Some(c) => model_has(self.model(), id@) && c@ == self.model()[model_position(
                    self.model(),
                    id@,
                )] && c.id@ == id@ && c.valid(),
                None => !model_has(self.model(), id@),
            },
    {
        match self.find(id) {
            Some(i) => {
                Some(&self.documents[i])
            },
            None => None,
        }
    }

    /// Stores `chunk`. A stored chunk with the same identifier is replaced:
    /// it leaves, and `chunk` goes to the end.
    pub fn put(&mut self, chunk: DocumentChunk)
        requires
            old(self).well_formed(),
            chunk.valid(),
        ensures
            final(self).well_formed(),
            final(self).model() == put_model(old(self).model(), chunk@),
            final(self).model().last() == chunk@,
            model_has(final(self).model(), chunk@.id),
            model_position(final(self).model(), chunk@.id) == final(self).model().len() - 1,
            model_has(old(self).model(), chunk@.id) ==> final(self).model().len() == old(
                self,
            ).model().len(),
            !model_has(old(self).model(), chunk@.id) ==> final(self).model().len() == old(
                self,
            ).model().len() + 1,
            forall|id: Seq<char>|
                id != chunk@.id ==> model_has(final(self).model(), id) == model_has(
                    old(self).model(),
                    id,
                ),
    {
        let ghost before = self.model();
        let ghost c = chunk@;
        let found = self.find(chunk.id.as_str());
        match found {
            Some(i) => {
                self.documents.remove(i);
                self.documents.push(chunk);
                assert(self.model() =~= before.remove(i as int).push(c));
            },
            None => {
                self.documents.push(chunk);
                assert(self.model() =~= before.push(c));
            },
        }
        proof {
            lemma_put_model(before, c);
            lemma_model_position(self.model(), self.model().len() - 1);
        }
    }

    /// Stores a copy of `chunk`, as `put` does.
    pub fn index_document(&mut self, chunk: &DocumentChunk)
        requires
            old(self).well_formed(),
            chunk.valid(),
        ensures
            final(self).well_formed(),
            final(self).model() == put_model(old(self).model(), chunk@),
            final(self).model().last() == chunk@,
            model_has(final(self).model(), chunk@.id),
            model_position(final(self).model(), chunk@.id) == final(self).model().len() - 1,
            model_has(old(self).model(), chunk@.id) ==> final(self).model().len() == old(
                self,
            ).model().len(),
            !model_has(old(self).model(), chunk@.id) ==> final(self).model().len() == old(
                self,
            ).model().len() + 1,
            forall|id: Seq<char>|
                id != chunk@.id ==> model_has(final(self).model(), id) == model_has(
                    old(self).model(),
                    id,
                ),
    {
        self.put(chunk.duplicate());
    }

    /// Stores copies of all of `chunks`, one after another, and returns how
    /// many there were.
    pub fn index_documents(&mut self, chunks: &Vec<DocumentChunk>) -> (n: usize)
        requires
            old(self).well_formed(),
            all_valid(chunks@),
        ensures
            final(self).well_formed(),
            final(self).model() == put_all(old(self).model(), models(chunks@), chunks@.len() as int),
            n == chunks@.len(),
    {
        let mut i: usize = 0;
        while i < chunks.len()
            invariant
                i <= chunks.len(),
                all_valid(chunks@),
                self.well_formed(),
                self.model() == put_all(old(self).model(), models(chunks@), i as int),
            decreases chunks.len() - i,
        {
            self.index_document(&chunks[i]);
            i = i + 1;
        }
        chunks.len()
    }

    /// Stores copies of all of `documents`, one after another, and returns
    /// their identifiers in order.
    pub fn store_batch(&mut self, documents: &Vec<DocumentChunk>) -> (ids: Vec<String>)
        requires
            old(self).well_formed(),
            all_valid(documents@),
        ensures
            final(self).well_formed(),
            final(self).model() == put_all(
                old(self).model(),
                models(documents@),
                documents@.len() as int,
            ),
            ids@.len() == documents@.len(),
            forall|i: int| 0 <= i < ids@.len() ==> (#[trigger] ids@[i])@ == documents@[i].id@,
    {
        let mut ids: Vec<String> = Vec::new();
        let mut i: usize = 0;
        while i < documents.len()
            invariant
                i <= documents.len(),
                all_valid(documents@),
                self.well_formed(),
                self.model() == put_all(old(self).model(), models(documents@), i as int),
                ids@.len() == i,
                forall|k: int| 0 <= k < i ==> (#[trigger] ids@[k])@ == documents@[k].id@,
            decreases documents.len() - i,
        {
            self.index_document(&documents[i]);
            ids.push(documents[i].id.clone());
            i = i + 1;
        }
        ids
    }

    /// What is told of the store, line by line: how many chunks it holds,
    /// the length of its embeddings, and the file it is kept in.
    pub fn get_collection_info(&self, data_file: &str) -> (r: Vec<String>)
        ensures
            crate::text::strings(r@) == collection_info(self.model().len(), data_file@),
    {
        let mut r: Vec<String> = Vec::new();
        r.push("📊 Local Vector Store Info:".to_owned());
        let mut count = crate::text::chars_of("   Documents count: ");
        crate::text::push_decimal(&mut count, self.documents.len());
        r.push(crate::text::string_of(&count));
        let mut dimension = crate::text::chars_of("   Embedding dimension: ");
        crate::text::push_decimal(&mut dimension, EMBEDDING_DIMENSION);
        r.push(crate::text::string_of(&dimension));
        let mut file = crate::text::chars_of("   Data file: ");
        crate::text::push_str(&mut file, data_file);
        r.push(crate::text::string_of(&file));
        assert(crate::text::strings(r@) =~= collection_info(self.model().len(), data_file@));
        r
    }

    /// Removes the chunk with the identifier `id`, and tells whether there was one.
    pub fn delete(&mut self, id: &str) -> (r: bool)
        requires
            old(self).well_formed(),
        ensures
            final(self).well_formed(),
            r == model_has(old(self).model(), id@),
            final(self).model() == delete_model(old(self).model(), id@),
            !model_has(final(self).model(), id@),
            r ==> final(self).model().len() + 1 == old(self).model().len(),
            !r ==> final(self).model() == old(self).model(),
            forall|other: Seq<char>|
                other != id@ ==> model_has(final(self).model(), other) == model_has(
                    old(self).model(),
                    other,
                ),
    {
        let ghost before = self.model();
        match self.find(id) {
            Some(i) => {
                self.documents.remove(i);
                proof {
                    let after = self.model();
                    assert(after =~= before.remove(i as int));
                    assert forall|other: Seq<char>| other != id@ implies model_has(after, other)
                        == model_has(before, other) by {
                        if model_has(before, other) {
                            let p = model_position(before, other);
                            if p < i {
                                assert(after[p].id == other);
                            } else {
                                assert(after[p - 1].id == other);
                            }
                        }
                        if model_has(after, other) {
                            let p = model_position(after, other);
                            if p < i {
                                assert(before[p].id == other);
                            } else {
                                assert(before[p + 1].id == other);
                            }
                        }
                    }
                }
                true
            },
            None => false,
        }
    }

    /// Attaches an embedding to the chunk with the identifier `id`. The
    /// embedding is taken only where the chunk is stored and the embedding
    /// has the length of the store's dimension; the result tells whether it
    /// was taken.
    pub fn attach_embedding(&mut self, id: &str, embedding: Vec<u32>) -> (r: bool)
        requires
            old(self).well_formed(),
        ensures
            final(self).well_formed(),
            r == (model_has(old(self).model(), id@) && embedding@.len() == EMBEDDING_DIMENSION),
            !r ==> final(self).model() == old(self).model(),
            r ==> final(self).model() == old(self).model().update(
                model_position(old(self).model(), id@),
                ChunkModel {
                    embedding: embedding@,
                    ..old(self).model()[model_position(old(self).model(), id@)]
                },
            ),
    {
        if embedding.len() != EMBEDDING_DIMENSION {
            return false;
        }
        let ghost before = self.model();
        match self.find(id) {
            Some(i) => {
                let ghost e = embedding@;
                self.documents[i].embedding = embedding;
                proof {
                    let after = self.model();
                    assert(after =~= before.update(
                        i as int,
                        ChunkModel { embedding: e, ..before[i as int] },
                    ));
                }
                true
            },
            None => false,
        }
    }

    /// Removes every chunk.
    pub fn clear(&mut self)
        ensures
            final(self).well_formed(),
            final(self).docs().len() == 0,
            final(self).model() == Seq::<ChunkModel>::empty(),
    {
        self.documents.clear();
        assert(self.model() =~= Seq::<ChunkModel>::empty());
    }
}

/// What every vector store offers, whether it keeps its chunks in memory or
/// with a remote service. An operation that fails leaves the store as it was.
pub trait VectorStore {
    /// The store is in a state that its operations can work on.
    spec fn valid(&self) -> bool;

    /// What the store holds, in insertion order.
    spec fn contents(&self) -> Seq<ChunkModel>;

    /// The store takes every valid chunk that it is offered, now and from
    /// now on. A store that may refuse a chunk does not say so.
    open spec fn takes_all(&self) -> bool {
        false
    }

    /// Stores a chunk in place of any with the same identifier, and returns
    /// the identifier.
    fn store(&mut self, document: DocumentChunk) -> (r: Result<String, Error>)
        requires
            old(self).valid(),
            document.valid(),
        ensures
            final(self).valid(),
            old(self).takes_all() ==> r is Ok && final(self).takes_all(),
            r matches Ok(id) ==> id@ == document.id@ && final(self).contents() == put_model(
                old(self).contents(),
                document@,
            ),
            r is Err ==> final(self).contents() == old(self).contents(),
    ;

    /// A copy of the chunk with the identifier `id`.
    fn fetch(&self, id: &str) -> (r: Result<Option<DocumentChunk>, Error>)
        requires
            self.valid(),
        ensures
            r matches Ok(found) ==> match found {
                Some(c) => model_has(self.contents(), id@) && c@
                    == self.contents()[model_position(self.contents(), id@)],
                None => !model_has(self.contents(), id@),
            },
    ;

    /// Removes the chunk with the identifier `id`, and tells whether there
    /// was one.
    fn remove(&mut self, id: &str) -> (r: Result<bool, Error>)
        requires
            old(self).valid(),
        ensures
            final(self).valid(),
            r matches Ok(was) ==> was == model_has(old(self).contents(), id@),
            r is Ok ==> final(self).contents() == delete_model(old(self).contents(), id@),
            r is Err ==> final(self).contents() == old(self).contents(),
    ;

    /// Removes every chunk.
    fn remove_all(&mut self) -> (r: Result<(), Error>)
        requires
            old(self).valid(),
        ensures
            final(self).valid(),
            r is Ok ==> final(self).contents().len() == 0,
            r is Err ==> final(self).contents() == old(self).contents(),
    ;

    /// The number of chunks.
    fn size(&self) -> (r: Result<usize, Error>)
        requires
            self.valid(),
        ensures
            r matches Ok(n) ==> n == self.contents().len(),
    ;
}

impl VectorStore for LocalVectorStore {
    open spec fn valid(&self) -> bool {
        self.well_formed()
    }

    open spec fn contents(&self) -> Seq<ChunkModel> {
        self.model()
    }

    /// The local store refuses no chunk.
    open spec fn takes_all(&self) -> bool {
        true
    }

    fn store(&mut self, document: DocumentChunk) -> (r: Result<String, Error>)
        ensures
            r is Ok,
    {
        let id = document.id.clone();
        self.put(document);
        Ok(id)
    }

    fn fetch(&self, id: &str) -> (r: Result<Option<DocumentChunk>, Error>)
        ensures
            r is Ok,
    {
        match self.get(id) {
            Some(c) => Ok(Some(c.duplicate())),
            None => Ok(None),
        }
    }

    fn remove(&mut self, id: &str) -> (r: Result<bool, Error>)
        ensures
            r is Ok,
    {
        Ok(self.delete(id))
    }

    fn remove_all(&mut self) -> (r: Result<(), Error>)
        ensures
            r is Ok,
    {
        self.clear();
        Ok(())
    }

    fn size(&self) -> (r: Result<usize, Error>)
        ensures
            r is Ok,
    {
        Ok(self.count())
    }
}

} // verus!
