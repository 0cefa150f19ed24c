//! Chunks from the text of a web page.
//!
//! The page is parsed by the `scraper` crate. The text of every element of a
//! fixed set of kinds becomes a chunk, unless it is too short.

use vstd::prelude::*;
use crate::digest::{md5_hex, push_md5_hex};
use crate::document::{models, ChunkModel, DocumentChunk};
use crate::string_map::StringMap;
use crate::text::{push_str, string_of, strings, trim_chars, trimmed};

verus! {

/// The text of an element becomes a chunk only where it is longer than this.
pub const MIN_FRAGMENT_CHARS: usize = 50;

/// For every element of the page `html` that the CSS selector `selector`
/// selects, in the order in which `Html::select` of the `scraper` crate
/// yields the elements, the texts of its descendent text nodes, in the
/// order in which `ElementRef::text` yields them; `None` where `selector`
/// is no selector that the crate accepts.
pub uninterp spec fn html_texts(html: Seq<char>, selector: Seq<char>) -> Option<
    Seq<Seq<Seq<char>>>,
>;

/// The texts that the lists of strings of `v` hold.
pub open spec fn nested_strings(v: Seq<Vec<String>>) -> Seq<Seq<Seq<char>>> {
    Seq::new(v.len(), |i: int| strings(v[i]@))
}

/// Parses the page with `scraper::Html::parse_document` and the selector
/// with `scraper::Selector::parse`, walks the elements that `Html::select`
/// yields, and collects for each the strings that `ElementRef::text` yields.
/// The contract only gives the outcome its name.
#[verifier::external_body]
pub(crate) fn select_texts(html: &str, selector: &str) -> (r: Option<Vec<Vec<String>>>)
    ensures
        match r {
            Some(v) => html_texts(html@, selector@) == Some(nested_strings(v@)),
            None => html_texts(html@, selector@) is None,
        },
{
    let document = scraper::Html::parse_document(html);
    match scraper::Selector::parse(selector) {
        Ok(sel) => {
            let mut out: Vec<Vec<String>> = Vec::new();
            for element in document.select(&sel) {
                let mut parts: Vec<String> = Vec::new();
                for t in element.text() {
                    parts.push(t.to_string());
                }
                out.push(parts);
            }
            Some(out)
        },
        Err(_) => None,
    }
}

/// The kinds of element whose text is indexed, as CSS selectors, in the
/// order in which they are taken.
pub open spec fn selectors() -> Seq<Seq<char>> {
    seq![
        "h1"@,
        "h2"@,
        "h3"@,
        "h4"@,
        "h5"@,
        "h6"@,
        "p"@,
        "div"@,
        "section"@,
        "article"@,
        "li"@,
        "td"@,
        "th"@,
        "blockquote"@,
    ]
}

/// The first `n` parts joined by single spaces.
pub open spec fn joined(parts: Seq<Seq<char>>, n: int) -> Seq<char>
    decreases n,
{
    if n <= 0 {
        Seq::empty()
    } else if n == 1 {
        parts[0]
    } else {
        joined(parts, n - 1) + seq![' '] + parts[n - 1]
    }
}

/// The text of an element: its parts joined by spaces, without surrounding
/// whitespace.
pub open spec fn element_text(parts: Seq<Seq<char>>) -> Seq<char> {
    trimmed(joined(parts, parts.len() as int))
}

/// The chunk made of the text `text` of an element of kind `selector` of the
/// page at `url`. Its identifier is made of the digests of the address and
/// of the text.
pub open spec fn html_chunk(text: Seq<char>, url: Seq<char>, selector: Seq<char>) -> ChunkModel {
    ChunkModel {
        id: md5_hex(url) + seq!['-'] + md5_hex(text),
        content: text,
        source: url,
        keys: seq!["element_type"@, "url"@],
        values: seq![selector, url],
        embedding: Seq::empty(),
    }
}

/// The chunks of the first `n` elements of one kind.
pub open spec fn element_chunks(
    elements: Seq<Seq<Seq<char>>>,
    url: Seq<char>,
    selector: Seq<char>,
    n: int,
) -> Seq<ChunkModel>
    decreases n,
{
    if n <= 0 {
        Seq::empty()
    } else if element_text(elements[n - 1]).len() > MIN_FRAGMENT_CHARS {
        element_chunks(elements, url, selector, n - 1).push(
            html_chunk(element_text(elements[n - 1]), url, selector),
        )
    } else {
        element_chunks(elements, url, selector, n - 1)
    }
}

/// The chunks of the elements of the page that one selector selects.
pub open spec fn selector_chunks(html: Seq<char>, url: Seq<char>, selector: Seq<char>) -> Seq<
    ChunkModel,
> {
    match html_texts(html, selector) {
        Some(elements) => element_chunks(elements, url, selector, elements.len() as int),
        None => Seq::empty(),
    }
}

/// The chunks of the page for the first `n` kinds of element.
pub open spec fn html_chunks_upto(html: Seq<char>, url: Seq<char>, n: int) -> Seq<ChunkModel>
    decreases n,
{
    if n <= 0 {
        Seq::empty()
    } else {
        html_chunks_upto(html, url, n - 1) + selector_chunks(html, url, selectors()[n - 1])
    }
}

/// The chunks of the page at `url` with the content `html`.
pub open spec fn html_chunks(html: Seq<char>, url: Seq<char>) -> Seq<ChunkModel> {
    html_chunks_upto(html, url, selectors().len() as int)
}

/// The parts joined by single spaces.
pub fn join_parts(parts: &Vec<String>) -> (r: Vec<char>)
    ensures
        r@ == joined(strings(parts@), parts@.len() as int),
{
    let mut r: Vec<char> = Vec::new();
    let mut i: usize = 0;
    while i < parts.len()
        invariant
            i <= parts.len(),
            r@ == joined(strings(parts@), i as int),
        decreases parts.len() - i,
    {
        if i > 0 {
            r.push(' ');
            push_str(&mut r, parts[i].as_str());
        } else {
            push_str(&mut r, parts[i].as_str());
        }
        i = i + 1;
    }
    r
}

/// The chunk made of the text of an element.
fn make_html_chunk(text: &Vec<char>, url: &str, selector: &str) -> (c: DocumentChunk)
    ensures
        c.valid(),
        c@ == html_chunk(text@, url@, selector@),
{
    let content = string_of(text);
    let mut id: Vec<char> = Vec::new();
    push_md5_hex(&mut id, url);
    id.push('-');
    push_md5_hex(&mut id, content.as_str());
    let mut metadata: StringMap<String> = StringMap::new();
    metadata.set("element_type", selector);
    proof {
        reveal_strlit("element_type");
        reveal_strlit("url");
        assert("element_type"@.len() != "url"@.len());
    }
    metadata.set("url", url);
    let c = DocumentChunk {
        id: string_of(&id),
        content,
        source: url.to_owned(),
        metadata,
        embedding: Vec::new(),
    };
    assert(c@.keys =~= seq!["element_type"@, "url"@]);
    assert(c@.values =~= seq![selector@, url@]);
    assert(c@.id =~= md5_hex(url@) + seq!['-'] + md5_hex(text@));
    c
}

/// Appends the chunks of the elements of one kind, where `elements` holds
/// the text nodes of each element: every element whose text, joined by
/// spaces and without surrounding whitespace, is longer than the shortest
/// fragment gives one chunk.
pub fn push_element_chunks(
    r: &mut Vec<DocumentChunk>,
    elements: &Vec<Vec<String>>,
    source_url: &str,
    selector: &str,
)
    requires
        crate::document::all_valid(old(r)@),
    ensures
        crate::document::all_valid(final(r)@),
        models(final(r)@) == models(old(r)@) + element_chunks(
            nested_strings(elements@),
            source_url@,
            selector@,
            elements@.len() as int,
        ),
{
    let ghost before = models(r@);
    let ghost all = nested_strings(elements@);
    let mut e: usize = 0;
    while e < elements.len()
        invariant
            e <= elements.len(),
            all == nested_strings(elements@),
            crate::document::all_valid(r@),
            models(r@) == before + element_chunks(all, source_url@, selector@, e as int),
        decreases elements.len() - e,
    {
        let raw = join_parts(&elements[e]);
        let text = trim_chars(&raw);
        if text.len() > MIN_FRAGMENT_CHARS {
            let c = make_html_chunk(&text, source_url, selector);
            let ghost sofar = models(r@);
            r.push(c);
            assert(models(r@) =~= sofar.push(html_chunk(text@, source_url@, selector@)));
        }
        e = e + 1;
    }
}

/// The chunks of the page at `source_url` with the content `html_content`.
pub fn parse_html_to_chunks(html_content: &str, source_url: &str) -> (r: Vec<DocumentChunk>)
    ensures
        models(r@) == html_chunks(html_content@, source_url@),
        crate::document::all_valid(r@),
{
    let mut kinds: Vec<String> = Vec::new();
    kinds.push("h1".to_owned());
    kinds.push("h2".to_owned());
    kinds.push("h3".to_owned());
    kinds.push("h4".to_owned());
    kinds.push("h5".to_owned());
    kinds.push("h6".to_owned());
    kinds.push("p".to_owned());
    kinds.push("div".to_owned());
    kinds.push("section".to_owned());
    kinds.push("article".to_owned());
    kinds.push("li".to_owned());
    kinds.push("td".to_owned());
    kinds.push("th".to_owned());
    kinds.push("blockquote".to_owned());
    let mut r: Vec<DocumentChunk> = Vec::new();
    let mut k: usize = 0;
    while k < kinds.len()
        invariant
            k <= kinds.len(),
            strings(kinds@) == selectors(),
            crate::document::all_valid(r@),
            models(r@) == html_chunks_upto(html_content@, source_url@, k as int),
        decreases kinds.len() - k,
    {
        let selector = kinds[k].as_str();
        match select_texts(html_content, selector) {
            Some(elements) => {
                push_element_chunks(&mut r, &elements, source_url, selector);
            },
            None => {},
        }
        k = k + 1;
    }
    r
}

} // verus!
