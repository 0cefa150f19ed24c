//! Document chunks: the unit the store holds and the search returns.

use vstd::prelude::*;
use crate::string_map::StringMap;

verus! {

/// A bounded fragment of source text with its metadata and embedding.
#[derive(Debug)]
pub struct DocumentChunk {
    /// Stable identifier, unique within a corpus.
    pub id: String,
    /// The text of the fragment.
    pub content: String,
    /// Where the text came from: a URL or a logical name.
    pub source: String,
    /// Ordered string-to-string metadata.
    pub metadata: StringMap<String>,
    /// The embedding as the bit patterns of its 32-bit components, in order.
    /// Empty until an embedding is attached.
    pub embedding: Vec<u32>,
}

/// What a chunk holds, as mathematical values.
pub struct ChunkModel {
    pub id: Seq<char>,
    pub content: Seq<char>,
    pub source: Seq<char>,
    pub keys: Seq<Seq<char>>,
    pub values: Seq<Seq<char>>,
    pub embedding: Seq<u32>,
}

impl View for DocumentChunk {
    type V = ChunkModel;

    open spec fn view(&self) -> ChunkModel {
        ChunkModel {
            id: self.id@,
            content: self.content@,
            source: self.source@,
            keys: self.metadata.keys(),
            values: self.metadata.value_texts(),
            embedding: self.embedding@,
        }
    }
}

impl ChunkModel {
    /// The text that the metadata holds under `key`, if any.
    pub open spec fn metadata_text(&self, key: Seq<char>) -> Option<Seq<char>> {
        if self.keys.contains(key) {
            Some(self.values[self.keys.index_of(key)])
        } else {
            None
        }
    }
}

impl DocumentChunk {
    /// A chunk is valid where no metadata key occurs twice.
    pub open spec fn valid(&self) -> bool {
        self.metadata.well_formed()
    }

    /// In a valid chunk, the metadata as a map and the metadata of the
    /// model hold the same texts under the same keys.
    pub proof fn lemma_metadata_text(&self, key: Seq<char>)
        requires
            self.valid(),
        ensures
            self.metadata.text_map().contains_key(key) == (self@.metadata_text(key) is Some),
            self.metadata.text_map().contains_key(key) ==> self@.metadata_text(key) == Some(
                self.metadata.text_map()[key],
            ),
    {
        let keys = self.metadata.keys();
        if self.metadata.has(key) {
            let p = self.metadata.position(key);
            assert(keys[p] == key);
            let q = keys.index_of(key);
            assert(self.metadata.entries()[q].0@ == key);
            self.metadata.lemma_position(q);
        }
        if keys.contains(key) {
            let q = keys.index_of(key);
            assert(self.metadata.entries()[q].0@ == key);
        }
    }

    /// A chunk without metadata and without an embedding.
    pub fn new(id: &str, content: &str, source: &str) -> (c: DocumentChunk)
        ensures
            c.valid(),
            c.id@ == id@,
            c.content@ == content@,
            c.source@ == source@,
            c.metadata.keys() == Seq::<Seq<char>>::empty(),
            c.metadata.text_map() == Map::<Seq<char>, Seq<char>>::empty(),
            c.embedding@ == Seq::<u32>::empty(),
    {
        let c = DocumentChunk {
            id: id.to_owned(),
            content: content.to_owned(),
            source: source.to_owned(),
            metadata: StringMap::new(),
            embedding: Vec::new(),
        };
        c
    }

    /// A copy that holds the same values.
    pub fn duplicate(&self) -> (c: DocumentChunk)
        ensures
            c@ == self@,
            c.metadata.entries() == self.metadata.entries(),
            c.valid() == self.valid(),
    {
        let mut embedding: Vec<u32> = Vec::new();
        let mut i: usize = 0;
        while i < self.embedding.len()
            invariant
                i <= self.embedding.len(),
                embedding@ == self.embedding@.take(i as int),
            decreases self.embedding.len() - i,
        {
            embedding.push(self.embedding[i]);
            i = i + 1;
        }
        assert(self.embedding@.take(self.embedding@.len() as int) == self.embedding@);
        DocumentChunk {
            id: self.id.clone(),
            content: self.content.clone(),
            source: self.source.clone(),
            metadata: self.metadata.duplicate(),
            embedding,
        }
    }
}

impl Clone for DocumentChunk {
    fn clone(&self) -> (c: Self)
        ensures
            c@ == self@,
            c.valid() == self.valid(),
    {
        self.duplicate()
    }
}

/// The models of the chunks of `v`, in order.
pub open spec fn models(v: Seq<DocumentChunk>) -> Seq<ChunkModel> {
    Seq::new(v.len(), |i: int| v[i]@)
}

/// Every chunk of `v` is valid.
pub open spec fn all_valid(v: Seq<DocumentChunk>) -> bool {
    forall|i: int| 0 <= i < v.len() ==> (#[trigger] v[i]).valid()
}

} // verus!
