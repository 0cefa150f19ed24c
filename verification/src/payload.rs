//! Chunks as the payload of a point in a remote vector store.
//!
//! A remote store keeps, beside the vector of a point, a payload of named
//! values. A chunk goes there as its content, its source and its metadata.
//! What comes back may hold values that are no text; those are left out.

use vstd::prelude::*;
use crate::document::{ChunkModel, DocumentChunk};
use crate::string_map::{keys_with, values_with, StringMap};
use crate::text::str_eq;

verus! {

/// The keys and values of a payload after the first `n` metadata entries
/// are stored in it, each in place of an entry of the same name.
pub open spec fn payload_with(
    start: (Seq<Seq<char>>, Seq<Seq<char>>),
    keys: Seq<Seq<char>>,
    values: Seq<Seq<char>>,
    n: int,
) -> (Seq<Seq<char>>, Seq<Seq<char>>)
    decreases n,
{
    if n <= 0 {
        start
    } else {
        let before = payload_with(start, keys, values, n - 1);
        (keys_with(before.0, keys[n - 1]), values_with(before.0, before.1, keys[n - 1], values[n - 1]))
    }
}

/// The payload of a chunk: its content, its source, and then its metadata.
pub open spec fn payload_model(c: ChunkModel) -> (Seq<Seq<char>>, Seq<Seq<char>>) {
    payload_with(
        (seq!["content"@, "source"@], seq![c.content, c.source]),
        c.keys,
        c.values,
        c.keys.len() as int,
    )
}

/// The payload of `chunk`.
pub fn payload_of(chunk: &DocumentChunk) -> (p: StringMap<String>)
    requires
        chunk.valid(),
    ensures
        p.well_formed(),
        (p.keys(), p.value_texts()) == payload_model(chunk@),
{
    let mut p: StringMap<String> = StringMap::new();
    p.set("content", chunk.content.as_str());
    proof {
        reveal_strlit("content");
        reveal_strlit("source");
        assert("content"@[0] != "source"@[0]);
    }
    p.set("source", chunk.source.as_str());
    let n = chunk.metadata.len();
    let mut i: usize = 0;
    while i < n
        invariant
            i <= n,
            n == chunk.metadata.entries().len(),
            p.well_formed(),
            (p.keys(), p.value_texts()) == payload_with(
                (seq!["content"@, "source"@], seq![chunk@.content, chunk@.source]),
                chunk@.keys,
                chunk@.values,
                i as int,
            ),
        decreases n - i,
    {
        p.set(chunk.metadata.key_at(i).as_str(), chunk.metadata.value_at(i).as_str());
        i = i + 1;
    }
    p
}

/// The text under `key` among the first `n` entries of a payload, and the
/// empty text where there is none or what is there is no text.
pub open spec fn payload_text(
    keys: Seq<Seq<char>>,
    values: Seq<Option<Seq<char>>>,
    key: Seq<char>,
    n: int,
) -> Seq<char>
    decreases n,
{
    if n <= 0 {
        Seq::empty()
    } else if keys[n - 1] == key {
        match values[n - 1] {
            Some(t) => t,
            None => Seq::empty(),
        }
    } else {
        payload_text(keys, values, key, n - 1)
    }
}

/// The metadata in the first `n` entries of a payload: the entries that
/// hold a text and are neither the content nor the source.
pub open spec fn payload_metadata(
    keys: Seq<Seq<char>>,
    values: Seq<Option<Seq<char>>>,
    n: int,
) -> (Seq<Seq<char>>, Seq<Seq<char>>)
    decreases n,
{
    if n <= 0 {
        (Seq::empty(), Seq::empty())
    } else {
        let before = payload_metadata(keys, values, n - 1);
        match values[n - 1] {
            Some(t) => if keys[n - 1] != "content"@ && keys[n - 1] != "source"@ {
                (keys_with(before.0, keys[n - 1]), values_with(before.0, before.1, keys[n - 1], t))
            } else {
                before
            },
            None => before,
        }
    }
}

/// The values of a payload, as optional texts.
pub open spec fn optional_texts(p: StringMap<Option<String>>) -> Seq<Option<Seq<char>>> {
    Seq::new(
        p.entries().len(),
        |i: int|
            match p.entries()[i].1 {
                Some(t) => Some(t@),
                None => None,
            },
    )
}

/// The chunk that a point with the identifier `id` and the payload
/// `(keys, values)` stands for.
pub open spec fn chunk_in_payload(
    id: Seq<char>,
    keys: Seq<Seq<char>>,
    values: Seq<Option<Seq<char>>>,
) -> ChunkModel {
    let m = payload_metadata(keys, values, keys.len() as int);
    ChunkModel {
        id,
        content: payload_text(keys, values, "content"@, keys.len() as int),
        source: payload_text(keys, values, "source"@, keys.len() as int),
        keys: m.0,
        values: m.1,
        embedding: Seq::empty(),
    }
}

/// The text under `key` in a payload.
fn text_in(payload: &StringMap<Option<String>>, key: &str) -> (r: String)
    ensures
        r@ == payload_text(
            payload.keys(),
            optional_texts(*payload),
            key@,
            payload.keys().len() as int,
        ),
{
    let mut n: usize = payload.len();
    while n > 0
        invariant
            n <= payload.entries().len(),
            payload_text(payload.keys(), optional_texts(*payload), key@, n as int)
                == payload_text(
                payload.keys(),
                optional_texts(*payload),
                key@,
                payload.keys().len() as int,
            ),
        decreases n,
    {
        if str_eq(payload.key_at(n - 1).as_str(), key) {
            return match payload.value_at(n - 1) {
                Some(t) => t.clone(),
                None => String::new(),
            };
        }
        n = n - 1;
    }
    String::new()
}

/// The chunk that a point with the identifier `id` and the payload
/// `payload` stands for. A value of the payload that is no text is given
/// as `None`.
pub fn chunk_from_payload(id: &str, payload: &StringMap<Option<String>>) -> (c: DocumentChunk)
    ensures
        c.valid(),
        c@ == chunk_in_payload(id@, payload.keys(), optional_texts(*payload)),
{
    let content = text_in(payload, "content");
    let source = text_in(payload, "source");
    let mut metadata: StringMap<String> = StringMap::new();
    let n = payload.len();
    let mut i: usize = 0;
    while i < n
        invariant
            i <= n,
            n == payload.entries().len(),
            metadata.well_formed(),
            (metadata.keys(), metadata.value_texts()) == payload_metadata(
                payload.keys(),
                optional_texts(*payload),
                i as int,
            ),
        decreases n - i,
    {
        let key = payload.key_at(i);
        match payload.value_at(i) {
            Some(t) => {
                if !str_eq(key.as_str(), "content") && !str_eq(key.as_str(), "source") {
                    metadata.set(key.as_str(), t.as_str());
                }
            },
            None => {},
        }
        i = i + 1;
    }
    let c = DocumentChunk {
        id: id.to_owned(),
        content,
        source,
        metadata,
        embedding: Vec::new(),
    };
    c
}

} // verus!
