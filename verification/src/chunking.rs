//! Splitting raw text into bounded chunks.
//!
//! A text is cut at blank lines into paragraphs. A paragraph that is too
//! short is dropped, one that fits the paragraph target becomes one chunk,
//! and a longer one is cut into sentences that are packed greedily into
//! chunks up to the sentence target. Lengths are counted in characters.

use vstd::prelude::*;
use crate::text::{
    chars_of, extend_chars, slice_of, split_chars, split_on, string_of, texts, trim_chars, trimmed,
    decimal, decimal_string, strings, lemma_trimmed,
};
use crate::digest::{md5_hex, push_md5_hex};
use crate::string_map::{keys_with, values_with, StringMap};
use crate::document::{ChunkModel, DocumentChunk};

verus! {

/// Paragraphs shorter than this are dropped.
pub const MIN_PARAGRAPH_CHARS: usize = 30;

/// A paragraph up to this length becomes one chunk.
pub const PARAGRAPH_TARGET_CHARS: usize = 400;

/// Sentences are packed into chunks up to this length.
pub const SENTENCE_TARGET_CHARS: usize = 300;

/// A sentence is closed only once it is longer than this.
pub const MIN_SENTENCE_CHARS: usize = 10;

/// The separator between paragraphs: a blank line.
pub open spec fn paragraph_break() -> Seq<char> {
    seq!['\n', '\n']
}

/// A character that may close a sentence.
pub open spec fn is_terminator(c: char) -> bool {
    c == '.' || c == '!' || c == '?'
}

/// A character that, right after a terminator, shows that the sentence goes
/// on: a lower-case ASCII letter or an ASCII digit, as in an abbreviation or
/// a decimal number.
pub open spec fn continues_sentence(c: char) -> bool {
    ('a' <= c && c <= 'z') || ('0' <= c && c <= '9')
}

/// Position `i` of `s` holds a terminator that ends a sentence: the text
/// ends there, or the next character does not continue the sentence.
pub open spec fn ends_sentence(s: Seq<char>, i: int) -> bool {
    &&& 0 <= i < s.len()
    &&& is_terminator(s[i])
    &&& i + 1 < s.len() ==> !continues_sentence(s[i + 1])
}

/// The sentences of `s` that end at or after position `i`, where the
/// sentence being read began at `start`.
pub open spec fn sentences_from(s: Seq<char>, start: int, i: int) -> Seq<Seq<char>>
    decreases s.len() - i,
{
    if i < 0 || start < 0 || start > i {
        Seq::empty()
    } else if i >= s.len() {
        let rest = trimmed(s.subrange(start, s.len() as int));
        if rest.len() > 0 {
            seq![rest]
        } else {
            Seq::empty()
        }
    } else if ends_sentence(s, i) && trimmed(s.subrange(start, i + 1)).len()
        > MIN_SENTENCE_CHARS {
        seq![trimmed(s.subrange(start, i + 1))] + sentences_from(s, i + 1, i + 1)
    } else {
        sentences_from(s, start, i + 1)
    }
}

/// The sentences of `s`, each without surrounding whitespace.
pub open spec fn sentences(s: Seq<char>) -> Seq<Seq<char>> {
    sentences_from(s, 0, 0)
}

/// The chunks that greedy packing makes of the sentences from `k` on, where
/// `cur` is the chunk being filled. A sentence joins the chunk, after one
/// space, unless that would take the chunk beyond the sentence target.
pub open spec fn pack(sents: Seq<Seq<char>>, k: int, cur: Seq<char>) -> Seq<Seq<char>>
    decreases sents.len() - k,
{
    if k < 0 || k >= sents.len() {
        if cur.len() > 0 {
            seq![cur]
        } else {
            Seq::empty()
        }
    } else if cur.len() > 0 && cur.len() + sents[k].len() + 2 > SENTENCE_TARGET_CHARS {
        seq![cur] + pack(sents, k + 1, sents[k])
    } else if cur.len() > 0 {
        pack(sents, k + 1, cur + seq![' '] + sents[k])
    } else {
        pack(sents, k + 1, sents[k])
    }
}

/// The chunk texts of one paragraph `p`, which has no surrounding whitespace.
pub open spec fn paragraph_chunks(p: Seq<char>) -> Seq<Seq<char>> {
    if p.len() < MIN_PARAGRAPH_CHARS {
        Seq::empty()
    } else if p.len() <= PARAGRAPH_TARGET_CHARS {
        seq![p]
    } else {
        pack(sentences(p), 0, Seq::empty())
    }
}

/// The chunk texts of the paragraphs from `i` on.
pub open spec fn chunk_texts_from(pars: Seq<Seq<char>>, i: int) -> Seq<Seq<char>>
    decreases pars.len() - i,
{
    if i < 0 || i >= pars.len() {
        Seq::empty()
    } else {
        paragraph_chunks(trimmed(pars[i])) + chunk_texts_from(pars, i + 1)
    }
}

/// The paragraphs of `text`.
pub open spec fn paragraphs(text: Seq<char>) -> Seq<Seq<char>> {
    split_on(text, paragraph_break())
}

/// The chunk texts of `text`, in order.
pub open spec fn chunk_texts(text: Seq<char>) -> Seq<Seq<char>> {
    chunk_texts_from(paragraphs(text), 0)
}

/// `x` is one whole sentence of a paragraph of `text`.
pub open spec fn is_lone_sentence(text: Seq<char>, x: Seq<char>) -> bool {
    exists|i: int, j: int|
        0 <= i < paragraphs(text).len() && 0 <= j < sentences(
            trimmed(paragraphs(text)[i]),
        ).len() && x == #[trigger] sentences(trimmed(paragraphs(text)[i]))[j]
}

/// The identifier of the chunk of `source` with index `index`: the digest of
/// the source, a hyphen, and the index.
pub open spec fn chunk_id(source: Seq<char>, index: nat) -> Seq<char> {
    md5_hex(source) + seq!['-'] + decimal(index)
}

/// The chunk with index `index` that is made of the text `body` of `source`:
/// its content is the body without surrounding whitespace, and its metadata
/// is the base metadata with the chunk's index and the body's length added.
pub open spec fn chunk_model(
    body: Seq<char>,
    source: Seq<char>,
    base_keys: Seq<Seq<char>>,
    base_values: Seq<Seq<char>>,
    index: nat,
) -> ChunkModel {
    let keys = keys_with(base_keys, "chunk_index"@);
    let values = values_with(base_keys, base_values, "chunk_index"@, decimal(index));
    ChunkModel {
        id: chunk_id(source, index),
        content: trimmed(body),
        source,
        keys: keys_with(keys, "chunk_size"@),
        values: values_with(keys, values, "chunk_size"@, decimal(body.len())),
        embedding: Seq::empty(),
    }
}

/// `c` is the chunk with index `index` that is made of the text `body` of
/// `source`, with `base` as the base metadata.
pub open spec fn chunk_of(
    c: DocumentChunk,
    body: Seq<char>,
    source: Seq<char>,
    base: StringMap<String>,
    index: nat,
) -> bool {
    &&& c.valid()
    &&& c@ == chunk_model(body, source, base.keys(), base.value_texts(), index)
    &&& c.metadata.text_map() == base.text_map().insert("chunk_index"@, decimal(index)).insert(
        "chunk_size"@,
        decimal(body.len()),
    )
}

/// Whether `c` is a lower-case ASCII letter or an ASCII digit.
fn is_continuation(c: char) -> (r: bool)
    ensures
        r == continues_sentence(c),
{
    ('a' <= c && c <= 'z') || ('0' <= c && c <= '9')
}

/// The sentences of `v`, each without surrounding whitespace.
pub fn sentence_chars(v: &Vec<char>) -> (r: Vec<Vec<char>>)
    ensures
        texts(r@) == sentences(v@),
{
    let mut r: Vec<Vec<char>> = Vec::new();
    let mut start: usize = 0;
    let mut i: usize = 0;
    while i < v.len()
        invariant
            start <= i <= v.len(),
            texts(r@) + sentences_from(v@, start as int, i as int) == sentences(v@),
        decreases v.len() - i,
    {
        let c = v[i];
        let mut closed = false;
        if c == '.' || c == '!' || c == '?' {
            let is_end = if i + 1 < v.len() {
                !is_continuation(v[i + 1])
            } else {
                true
            };
            if is_end {
                let piece = slice_of(v, start, i + 1);
                let t = trim_chars(&piece);
                if t.len() > MIN_SENTENCE_CHARS {
                    r.push(t);
                    start = i + 1;
                    closed = true;
                }
            }
        }
        i = i + 1;
    }
    let piece = slice_of(v, start, v.len());
    let t = trim_chars(&piece);
    if t.len() > 0 {
        r.push(t);
    }
    r
}

/// The sentences of `text`, each without surrounding whitespace.
pub fn split_into_sentences(text: &str) -> (r: Vec<String>)
    ensures
        strings(r@) == sentences(text@),
{
    let v = chars_of(text);
    let parts = sentence_chars(&v);
    to_strings(&parts)
}

/// The strings that hold the texts of `parts`.
pub fn to_strings(parts: &Vec<Vec<char>>) -> (r: Vec<String>)
    ensures
        strings(r@) == texts(parts@),
{
    let mut r: Vec<String> = Vec::new();
    let mut i: usize = 0;
    while i < parts.len()
        invariant
            i <= parts.len(),
            strings(r@) == texts(parts@).take(i as int),
        decreases parts.len() - i,
    {
        let s = string_of(&parts[i]);
        let ghost before = strings(r@);
        r.push(s);
        assert(strings(r@) == before.push(parts@[i as int]@));
        i = i + 1;
    }
    r
}

/// Packs the sentences greedily into chunks up to the sentence target.
pub fn pack_sentences(sents: &Vec<Vec<char>>) -> (r: Vec<Vec<char>>)
    ensures
        texts(r@) == pack(texts(sents@), 0, Seq::empty()),
{
    let mut r: Vec<Vec<char>> = Vec::new();
    let mut cur: Vec<char> = Vec::new();
    let mut k: usize = 0;
    while k < sents.len()
        invariant
            k <= sents.len(),
            texts(r@) + pack(texts(sents@), k as int, cur@) == pack(
                texts(sents@),
                0,
                Seq::empty(),
            ),
        decreases sents.len() - k,
    {
        let s = &sents[k];
        let ghost old_cur = cur@;
        if cur.len() > 0 && (cur.len() >= SENTENCE_TARGET_CHARS - 1 || s.len()
            > SENTENCE_TARGET_CHARS - 2 - cur.len()) {
            let mut next: Vec<char> = Vec::new();
            extend_chars(&mut next, s);
            r.push(cur);
            cur = next;
        } else if cur.len() > 0 {
            cur.push(' ');
            extend_chars(&mut cur, s);
            assert(cur@ == old_cur + seq![' '] + s@);
        } else {
            extend_chars(&mut cur, s);
        }
        k = k + 1;
    }
    if cur.len() > 0 {
        r.push(cur);
    }
    r
}

/// The chunk texts of one paragraph, which has no surrounding whitespace.
pub fn paragraph_chunk_texts(p: Vec<char>) -> (r: Vec<Vec<char>>)
    ensures
        texts(r@) == paragraph_chunks(p@),
{
    if p.len() < MIN_PARAGRAPH_CHARS {
        let r: Vec<Vec<char>> = Vec::new();
        r
    } else if p.len() <= PARAGRAPH_TARGET_CHARS {
        let mut r: Vec<Vec<char>> = Vec::new();
        r.push(p);
        r
    } else {
        let sents = sentence_chars(&p);
        pack_sentences(&sents)
    }
}

/// The chunk texts of `text`, in order.
pub fn chunk_text_list(text: &Vec<char>) -> (r: Vec<Vec<char>>)
    ensures
        texts(r@) == chunk_texts(text@),
{
    let mut sep: Vec<char> = Vec::new();
    sep.push('\n');
    sep.push('\n');
    assert(sep@ == paragraph_break());
    let pars = split_chars(text, &sep);
    let mut r: Vec<Vec<char>> = Vec::new();
    let mut i: usize = 0;
    while i < pars.len()
        invariant
            i <= pars.len(),
            texts(pars@) == paragraphs(text@),
            texts(r@) + chunk_texts_from(texts(pars@), i as int) == chunk_texts(text@),
        decreases pars.len() - i,
    {
        let p = trim_chars(&pars[i]);
        let mut part = paragraph_chunk_texts(p);
        append_texts(&mut r, &mut part);
        i = i + 1;
    }
    r
}

/// Moves the texts of `tail` to the end of `r`.
fn append_texts(r: &mut Vec<Vec<char>>, tail: &mut Vec<Vec<char>>)
    ensures
        texts(final(r)@) == texts(old(r)@) + texts(old(tail)@),
{
    r.append(tail);
}

/// The chunk with index `index` made of the text `content` of `source`.
pub fn create_chunk(content: &str, source: &str, metadata: &StringMap<String>, index: usize) -> (c:
    DocumentChunk)
    requires
        metadata.well_formed(),
    ensures
        chunk_of(c, content@, source@, *metadata, index as nat),
{
    let body = chars_of(content);
    chunk_from_chars(&body, source, metadata, index)
}

/// The chunk with index `index` made of the characters `body` of `source`.
pub fn chunk_from_chars(
    body: &Vec<char>,
    source: &str,
    metadata: &StringMap<String>,
    index: usize,
) -> (c: DocumentChunk)
    requires
        metadata.well_formed(),
    ensures
        chunk_of(c, body@, source@, *metadata, index as nat),
{
    let mut chunk_metadata = metadata.duplicate();
    assert(chunk_metadata.text_map() =~= metadata.text_map());
    let index_text = decimal_string(index);
    let size_text = decimal_string(body.len());
    chunk_metadata.set("chunk_index", index_text.as_str());
    chunk_metadata.set("chunk_size", size_text.as_str());
    let mut id: Vec<char> = Vec::new();
    push_md5_hex(&mut id, source);
    id.push('-');
    crate::text::push_decimal(&mut id, index);
    assert(id@ == chunk_id(source@, index as nat));
    let content = trim_chars(body);
    let c = DocumentChunk {
        id: string_of(&id),
        content: string_of(&content),
        source: source.to_owned(),
        metadata: chunk_metadata,
        embedding: Vec::new(),
    };
    c
}

/// The chunks of `text`, numbered from zero in the order of the text.
pub fn split_text_into_chunks(text: &str, source: &str, metadata: &StringMap<String>) -> (r: Vec<
    DocumentChunk,
>)
    requires
        metadata.well_formed(),
    ensures
        r@.len() == chunk_texts(text@).len(),
        forall|k: int|
            0 <= k < r@.len() ==> chunk_of(
                #[trigger] r@[k],
                chunk_texts(text@)[k],
                source@,
                *metadata,
                k as nat,
            ),
        forall|k: int|
            0 <= k < r@.len() ==> (#[trigger] r@[k]).content@ == chunk_texts(text@)[k] && r@[k].content@.len()
                > 0,
        forall|k: int|
            0 <= k < r@.len() ==> (#[trigger] r@[k]).content@.len() <= PARAGRAPH_TARGET_CHARS
                || is_lone_sentence(text@, r@[k].content@),
{
    let chars = chars_of(text);
    let bodies = chunk_text_list(&chars);
    let mut r: Vec<DocumentChunk> = Vec::new();
    let mut k: usize = 0;
    while k < bodies.len()
        invariant
            k <= bodies.len(),
            r@.len() == k,
            metadata.well_formed(),
            texts(bodies@) == chunk_texts(text@),
            forall|j: int|
                0 <= j < k ==> chunk_of(
                    #[trigger] r@[j],
                    chunk_texts(text@)[j],
                    source@,
                    *metadata,
                    j as nat,
                ),
        decreases bodies.len() - k,
    {
        let c = chunk_from_chars(&bodies[k], source, metadata, k);
        r.push(c);
        k = k + 1;
    }
    proof {
        assert forall|j: int| 0 <= j < r@.len() implies (#[trigger] r@[j]).content@
            == chunk_texts(text@)[j] && r@[j].content@.len() > 0 && (r@[j].content@.len()
            <= PARAGRAPH_TARGET_CHARS || is_lone_sentence(text@, r@[j].content@)) by {
            lemma_chunk_size_bound(text@, j);
            lemma_chunk_texts_tidy(text@, j);
        }
    }
    r
}

/// A text is tidy where it is not empty and neither begins nor ends with whitespace.
pub open spec fn tidy(s: Seq<char>) -> bool {
    s.len() > 0 && !crate::text::is_space(s.first()) && !crate::text::is_space(s.last())
}

/// Every sentence is tidy.
pub proof fn lemma_sentences_tidy(s: Seq<char>, start: int, i: int, k: int)
    requires
        0 <= k < sentences_from(s, start, i).len(),
    ensures
        tidy(sentences_from(s, start, i)[k]),
    decreases s.len() - i,
{
    if 0 <= start <= i {
        if i >= s.len() {
            lemma_trimmed(s.subrange(start, s.len() as int));
        } else if ends_sentence(s, i) && trimmed(s.subrange(start, i + 1)).len()
            > MIN_SENTENCE_CHARS {
            if k == 0 {
                lemma_trimmed(s.subrange(start, i + 1));
            } else {
                lemma_sentences_tidy(s, i + 1, i + 1, k - 1);
            }
        } else {
            lemma_sentences_tidy(s, start, i + 1, k);
        }
    }
}

/// Packing tidy sentences gives tidy chunks.
pub proof fn lemma_pack_tidy(sents: Seq<Seq<char>>, k: int, cur: Seq<char>, m: int)
    requires
        0 <= k <= sents.len(),
        forall|j: int| 0 <= j < sents.len() ==> tidy(#[trigger] sents[j]),
        cur.len() == 0 || tidy(cur),
        0 <= m < pack(sents, k, cur).len(),
    ensures
        tidy(pack(sents, k, cur)[m]),
    decreases sents.len() - k,
{
    if k < sents.len() {
        if cur.len() > 0 && cur.len() + sents[k].len() + 2 > SENTENCE_TARGET_CHARS {
            if m > 0 {
                lemma_pack_tidy(sents, k + 1, sents[k], m - 1);
            }
        } else if cur.len() > 0 {
            lemma_pack_tidy(sents, k + 1, cur + seq![' '] + sents[k], m);
        } else {
            lemma_pack_tidy(sents, k + 1, sents[k], m);
        }
    }
}

/// Every chunk text of the paragraphs from `i` on is tidy.
proof fn lemma_chunks_from_tidy(pars: Seq<Seq<char>>, i: int, m: int)
    requires
        0 <= i <= pars.len(),
        0 <= m < chunk_texts_from(pars, i).len(),
    ensures
        tidy(chunk_texts_from(pars, i)[m]),
    decreases pars.len() - i,
{
    if i < pars.len() {
        let p = trimmed(pars[i]);
        let head = paragraph_chunks(p);
        if m < head.len() {
            if p.len() <= PARAGRAPH_TARGET_CHARS {
                lemma_trimmed(pars[i]);
            } else {
                let sents = sentences(p);
                assert forall|j: int| 0 <= j < sents.len() implies tidy(#[trigger] sents[j]) by {
                    lemma_sentences_tidy(p, 0, 0, j);
                }
                lemma_pack_tidy(sents, 0, Seq::empty(), m);
            }
        } else {
            lemma_chunks_from_tidy(pars, i + 1, m - head.len());
        }
    }
}

/// Every chunk text is not empty and has no surrounding whitespace, so the
/// content of a chunk is its chunk text as it is.
pub proof fn lemma_chunk_texts_tidy(text: Seq<char>, k: int)
    requires
        0 <= k < chunk_texts(text).len(),
    ensures
        tidy(chunk_texts(text)[k]),
        trimmed(chunk_texts(text)[k]) == chunk_texts(text)[k],
{
    lemma_chunks_from_tidy(paragraphs(text), 0, k);
}

/// Packing keeps the size bound: where the chunk being filled is within the
/// sentence target or is one whole sentence, so is every chunk that comes out.
pub proof fn lemma_pack_bound(sents: Seq<Seq<char>>, k: int, cur: Seq<char>, m: int)
    requires
        0 <= k <= sents.len(),
        cur.len() <= SENTENCE_TARGET_CHARS || sents.contains(cur),
        0 <= m < pack(sents, k, cur).len(),
    ensures
        pack(sents, k, cur)[m].len() <= SENTENCE_TARGET_CHARS || sents.contains(
            pack(sents, k, cur)[m],
        ),
    decreases sents.len() - k,
{
    if k < sents.len() {
        if cur.len() > 0 && cur.len() + sents[k].len() + 2 > SENTENCE_TARGET_CHARS {
            if m > 0 {
                lemma_pack_bound(sents, k + 1, sents[k], m - 1);
            }
        } else if cur.len() > 0 {
            lemma_pack_bound(sents, k + 1, cur + seq![' '] + sents[k], m);
        } else {
            lemma_pack_bound(sents, k + 1, sents[k], m);
        }
    }
}

/// Every chunk text of a paragraph is within the paragraph target, or is one
/// whole sentence of the paragraph.
pub proof fn lemma_paragraph_bound(p: Seq<char>, m: int)
    requires
        0 <= m < paragraph_chunks(p).len(),
    ensures
        paragraph_chunks(p)[m].len() <= PARAGRAPH_TARGET_CHARS || sentences(p).contains(
            paragraph_chunks(p)[m],
        ),
{
    if p.len() > PARAGRAPH_TARGET_CHARS {
        lemma_pack_bound(sentences(p), 0, Seq::empty(), m);
    }
}

/// The size bound for the chunk texts of the paragraphs from `i` on.
proof fn lemma_chunks_from_bound(pars: Seq<Seq<char>>, i: int, m: int)
    requires
        0 <= i <= pars.len(),
        0 <= m < chunk_texts_from(pars, i).len(),
    ensures
        chunk_texts_from(pars, i)[m].len() <= PARAGRAPH_TARGET_CHARS || exists|a: int, b: int|
            0 <= a < pars.len() && 0 <= b < sentences(trimmed(pars[a])).len() && chunk_texts_from(
                pars,
                i,
            )[m] == #[trigger] sentences(trimmed(pars[a]))[b],
    decreases pars.len() - i,
{
    if i < pars.len() {
        let head = paragraph_chunks(trimmed(pars[i]));
        if m < head.len() {
            lemma_paragraph_bound(trimmed(pars[i]), m);
        } else {
            lemma_chunks_from_bound(pars, i + 1, m - head.len());
        }
    }
}

/// Chunk size bound: every chunk text is within the paragraph target, except
/// where it is a single sentence that is longer, which is kept whole.
pub proof fn lemma_chunk_size_bound(text: Seq<char>, k: int)
    requires
        0 <= k < chunk_texts(text).len(),
    ensures
        chunk_texts(text)[k].len() <= PARAGRAPH_TARGET_CHARS || is_lone_sentence(
            text,
            chunk_texts(text)[k],
        ),
{
    lemma_chunks_from_bound(paragraphs(text), 0, k);
}

} // verus!
