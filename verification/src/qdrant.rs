//! The remote vector store.

use vstd::prelude::*;

verus! {

/// A vector store kept by a Qdrant server. It holds nothing of its own: the
/// connection to the server belongs to its owner.
pub struct QdrantVectorStore {}

impl QdrantVectorStore {
    /// The store.
    pub fn new() -> Self {
        QdrantVectorStore {  }
    }
}

impl Default for QdrantVectorStore {
    fn default() -> Self {
        QdrantVectorStore::new()
    }
}

} // verus!
