//! The basic knowledge that every knowledge base starts with, and the
//! context that is built from retrieved documents.

use vstd::prelude::*;
use crate::document::{models, ChunkModel, DocumentChunk};
use crate::learning::{
    best_sorted, learning_context, suggestion_candidates, CommandLearningEngine, MAX_SUGGESTIONS,
};
use crate::local_document_indexer::{cli_context_for, text_document_chunks, LocalDocumentIndexer};
use crate::error::Error;
use crate::ratio::Ratio;
use crate::search::{search_results, SearchConfig};
use crate::store::put_all;
use crate::string_map::StringMap;
use crate::text::{decimal, push_decimal, push_str, string_of};

verus! {

/// One piece of basic knowledge: a text, the source it is filed under, and
/// its category.
#[derive(Debug)]
pub struct KnowledgeEntry {
    pub content: &'static str,
    pub source: &'static str,
    pub category: &'static str,
}

/// A piece of basic knowledge, as mathematical values.
pub struct KnowledgeModel {
    pub content: Seq<char>,
    pub source: Seq<char>,
    pub category: Seq<char>,
}

impl View for KnowledgeEntry {
    type V = KnowledgeModel;

    open spec fn view(&self) -> KnowledgeModel {
        KnowledgeModel { content: self.content@, source: self.source@, category: self.category@ }
    }
}

/// The models of the entries of `v`, in order.
pub open spec fn entry_models(v: Seq<KnowledgeEntry>) -> Seq<KnowledgeModel> {
    Seq::new(v.len(), |i: int| v[i]@)
}

/// The basic knowledge of the IBM Cloud command line.
pub open spec fn basic_knowledge_texts() -> Seq<KnowledgeModel> {
    seq![
        KnowledgeModel {
            content: "IBM Cloud CLI is a command-line interface that provides a set of commands for managing IBM Cloud resources. You can use it to create, configure, and manage IBM Cloud services from your terminal."@,
            source: "IBM Cloud CLI Overview"@,
            category: "basic_knowledge"@,
        },
        KnowledgeModel {
            content: "To install IBM Cloud CLI, you can download it from the IBM Cloud website or use package managers like Homebrew on macOS or apt-get on Ubuntu. After installation, use 'ibmcloud login' to authenticate."@,
            source: "IBM Cloud CLI Installation"@,
            category: "installation_guide"@,
        },
        KnowledgeModel {
            content: "Common IBM Cloud CLI commands include: 'ibmcloud login' for authentication, 'ibmcloud target' to set your target organization and space, 'ibmcloud resource groups' to list resource groups, and 'ibmcloud cf apps' to list Cloud Foundry applications."@,
            source: "IBM Cloud CLI Commands"@,
            category: "command_reference"@,
        },
        KnowledgeModel {
            content: "IBM Cloud CLI plugins extend the functionality of the CLI. You can install plugins using 'ibmcloud plugin install <plugin-name>'. Popular plugins include container-service, cloud-functions, and dev."@,
            source: "IBM Cloud CLI Plugins"@,
            category: "plugin_guide"@,
        },
        KnowledgeModel {
            content: "To manage Cloud Foundry applications with IBM Cloud CLI, use commands like 'ibmcloud cf push' to deploy apps, 'ibmcloud cf apps' to list apps, 'ibmcloud cf logs' to view logs, and 'ibmcloud cf delete' to remove apps."@,
            source: "Cloud Foundry Management"@,
            category: "cf_commands"@,
        },
        KnowledgeModel {
            content: "IBM Cloud CLI supports multiple output formats including JSON, table, and CSV. Use the '--output json' flag to get machine-readable output for scripting and automation."@,
            source: "IBM Cloud CLI Output Formats"@,
            category: "output_formatting"@,
        },
    ]
}

/// The basic knowledge of the IBM Cloud command line.
pub fn basic_knowledge() -> (r: Vec<KnowledgeEntry>)
    ensures
        entry_models(r@) == basic_knowledge_texts(),
{
    let mut r: Vec<KnowledgeEntry> = Vec::new();
    r.push(
        KnowledgeEntry {
            content: "IBM Cloud CLI is a command-line interface that provides a set of commands for managing IBM Cloud resources. You can use it to create, configure, and manage IBM Cloud services from your terminal.",
            source: "IBM Cloud CLI Overview",
            category: "basic_knowledge",
        },
    );
    r.push(
        KnowledgeEntry {
            content: "To install IBM Cloud CLI, you can download it from the IBM Cloud website or use package managers like Homebrew on macOS or apt-get on Ubuntu. After installation, use 'ibmcloud login' to authenticate.",
            source: "IBM Cloud CLI Installation",
            category: "installation_guide",
        },
    );
    r.push(
        KnowledgeEntry {
            content: "Common IBM Cloud CLI commands include: 'ibmcloud login' for authentication, 'ibmcloud target' to set your target organization and space, 'ibmcloud resource groups' to list resource groups, and 'ibmcloud cf apps' to list Cloud Foundry applications.",
            source: "IBM Cloud CLI Commands",
            category: "command_reference",
        },
    );
    r.push(
        KnowledgeEntry {
            content: "IBM Cloud CLI plugins extend the functionality of the CLI. You can install plugins using 'ibmcloud plugin install <plugin-name>'. Popular plugins include container-service, cloud-functions, and dev.",
            source: "IBM Cloud CLI Plugins",
            category: "plugin_guide",
        },
    );
    r.push(
        KnowledgeEntry {
            content: "To manage Cloud Foundry applications with IBM Cloud CLI, use commands like 'ibmcloud cf push' to deploy apps, 'ibmcloud cf apps' to list apps, 'ibmcloud cf logs' to view logs, and 'ibmcloud cf delete' to remove apps.",
            source: "Cloud Foundry Management",
            category: "cf_commands",
        },
    );
    r.push(
        KnowledgeEntry {
            content: "IBM Cloud CLI supports multiple output formats including JSON, table, and CSV. Use the '--output json' flag to get machine-readable output for scripting and automation.",
            source: "IBM Cloud CLI Output Formats",
            category: "output_formatting",
        },
    );
    r
}

/// The chunks that a piece of knowledge of the kind `kind` gives.
pub open spec fn knowledge_chunks(e: KnowledgeModel, kind: Seq<char>) -> Seq<ChunkModel> {
    text_document_chunks(
        e.content,
        e.source,
        seq!["category"@, "type"@],
        seq![e.category, kind],
    )
}

/// The stored chunks after the first `n` entries are indexed, one after another.
pub open spec fn with_knowledge(
    docs: Seq<ChunkModel>,
    entries: Seq<KnowledgeModel>,
    kind: Seq<char>,
    n: int,
) -> Seq<ChunkModel>
    decreases n,
{
    if n <= 0 {
        docs
    } else {
        let chunks = knowledge_chunks(entries[n - 1], kind);
        put_all(with_knowledge(docs, entries, kind, n - 1), chunks, chunks.len() as int)
    }
}

/// The metadata of a piece of knowledge: its category and its kind.
fn knowledge_metadata(category: &str, kind: &str) -> (m: StringMap<String>)
    ensures
        m.well_formed(),
        m.keys() == seq!["category"@, "type"@],
        m.value_texts() == seq![category@, kind@],
{
    let mut m: StringMap<String> = StringMap::new();
    m.set("category", category);
    proof {
        reveal_strlit("category");
        reveal_strlit("type");
        assert("category"@.len() != "type"@.len());
    }
    m.set("type", kind);
    m
}

/// How many chunks the first `n` pieces of knowledge give, but the largest
/// number that a count can hold where there are more.
pub open spec fn knowledge_chunk_count(entries: Seq<KnowledgeModel>, n: int) -> nat
    decreases n,
{
    if n <= 0 {
        0
    } else {
        let total = knowledge_chunk_count(entries, n - 1) + crate::chunking::chunk_texts(
            entries[n - 1].content,
        ).len();
        if total > usize::MAX {
            usize::MAX as nat
        } else {
            total
        }
    }
}

impl LocalDocumentIndexer {
    /// Indexes a piece of knowledge of the caller's own, and returns how
    /// many chunks it gave.
    pub fn add_custom_knowledge(&mut self, content: &str, source: &str, category: &str) -> (n:
        usize)
        requires
            old(self).vector_store.well_formed(),
        ensures
            final(self).vector_store.well_formed(),
            final(self).vector_store.model() == with_knowledge(
                old(self).vector_store.model(),
                seq![KnowledgeModel { content: content@, source: source@, category: category@ }],
                "custom"@,
                1,
            ),
            final(self).sources == old(self).sources,
            n == crate::chunking::chunk_texts(content@).len(),
    {
        let metadata = knowledge_metadata(category, "custom");
        let ghost e = KnowledgeModel { content: content@, source: source@, category: category@ };
        assert(with_knowledge(old(self).vector_store.model(), seq![e], "custom"@, 0) == old(
            self,
        ).vector_store.model());
        self.index_text_document(content, source, metadata)
    }

    /// Indexes the basic knowledge, and returns how many chunks it gave.
    pub fn initialize_knowledge_base(&mut self) -> (n: usize)
        requires
            old(self).vector_store.well_formed(),
        ensures
            final(self).vector_store.well_formed(),
            final(self).vector_store.model() == with_knowledge(
                old(self).vector_store.model(),
                basic_knowledge_texts(),
                "documentation"@,
                basic_knowledge_texts().len() as int,
            ),
            final(self).sources == old(self).sources,
            n == knowledge_chunk_count(
                basic_knowledge_texts(),
                basic_knowledge_texts().len() as int,
            ),
    {
        let entries = basic_knowledge();
        let ghost ms = entry_models(entries@);
        let mut total: usize = 0;
        let mut i: usize = 0;
        while i < entries.len()
            invariant
                i <= entries.len(),
                ms == entry_models(entries@),
                ms == basic_knowledge_texts(),
                self.vector_store.well_formed(),
                self.sources == old(self).sources,
                total == knowledge_chunk_count(ms, i as int),
                self.vector_store.model() == with_knowledge(
                    old(self).vector_store.model(),
                    ms,
                    "documentation"@,
                    i as int,
                ),
            decreases entries.len() - i,
        {
            let e = &entries[i];
            let metadata = knowledge_metadata(e.category, "documentation");
            let n = self.index_text_document(e.content, e.source, metadata);
            total = total.saturating_add(n);
            i = i + 1;
        }
        total
    }
}

/// The prompt of the assistant for a request: without documentation, the
/// plain task, what was learned, the rules and the request; with
/// documentation, the task, the documentation, what was learned, the rules,
/// which then ask to use the documentation, and the request.
pub open spec fn assistant_prompt(
    context: Seq<char>,
    learning_context: Seq<char>,
    user_input: Seq<char>,
) -> Seq<char> {
    if context.len() == 0 {
        "You are an IBM Cloud CLI assistant. Translate the following natural language request into the appropriate IBM Cloud CLI command."@ + learning_context + "\n\nRules:\n- Return ONLY the IBM Cloud CLI command, no explanations\n- Start with 'ibmcloud' if it's an IBM Cloud command\n- Be concise and accurate\n\nUser Request: "@ + user_input + "\n\nCommand:"@
    } else {
        "You are an IBM Cloud CLI assistant. Use the following documentation context to translate the natural language request into the appropriate IBM Cloud CLI command.\n\nContext:\n"@ + context + learning_context + "\n\nRules:\n- Return ONLY the IBM Cloud CLI command, no explanations\n- Start with 'ibmcloud' if it's an IBM Cloud command\n- Be concise and accurate\n- Use the context to ensure accuracy\n\nUser Request: "@ + user_input + "\n\nCommand:"@
    }
}

/// The prompt of the assistant for `user_input`, with the documentation
/// `context` and with what was learned from corrections.
pub fn context_prompt(context: &str, learning_context: &str, user_input: &str) -> (r: String)
    ensures
        r@ == assistant_prompt(context@, learning_context@, user_input@),
{
    let documentation = crate::text::chars_of(context);
    let mut out: Vec<char> = Vec::new();
    if documentation.len() == 0 {
        push_str(&mut out, "You are an IBM Cloud CLI assistant. Translate the following natural language request into the appropriate IBM Cloud CLI command.");
        push_str(&mut out, learning_context);
        push_str(&mut out, "\n\nRules:\n- Return ONLY the IBM Cloud CLI command, no explanations\n- Start with 'ibmcloud' if it's an IBM Cloud command\n- Be concise and accurate\n\nUser Request: ");
    } else {
        push_str(&mut out, "You are an IBM Cloud CLI assistant. Use the following documentation context to translate the natural language request into the appropriate IBM Cloud CLI command.\n\nContext:\n");
        crate::text::extend_chars(&mut out, &documentation);
        push_str(&mut out, learning_context);
        push_str(&mut out, "\n\nRules:\n- Return ONLY the IBM Cloud CLI command, no explanations\n- Start with 'ibmcloud' if it's an IBM Cloud command\n- Be concise and accurate\n- Use the context to ensure accuracy\n\nUser Request: ");
    }
    push_str(&mut out, user_input);
    push_str(&mut out, "\n\nCommand:");
    string_of(&out)
}

/// What is shown of the documents found in a search: each with the source
/// it is from.
pub open spec fn shown_documents(documents: Seq<ChunkModel>) -> Seq<Seq<char>> {
    Seq::new(documents.len(), |i: int| "From "@ + documents[i].source + ": "@ + documents[i].content)
}

/// What is shown of the documents found in a search.
pub fn describe_documents(documents: &Vec<DocumentChunk>) -> (r: Vec<String>)
    ensures
        crate::text::strings(r@) == shown_documents(models(documents@)),
{
    let mut r: Vec<String> = Vec::new();
    let mut i: usize = 0;
    while i < documents.len()
        invariant
            i <= documents.len(),
            r@.len() == i,
            forall|k: int|
                0 <= k < i ==> (#[trigger] r@[k])@ == "From "@ + documents@[k].source@ + ": "@
                    + documents@[k].content@,
        decreases documents.len() - i,
    {
        let mut line: Vec<char> = Vec::new();
        push_str(&mut line, "From ");
        push_str(&mut line, documents[i].source.as_str());
        push_str(&mut line, ": ");
        push_str(&mut line, documents[i].content.as_str());
        r.push(string_of(&line));
        i = i + 1;
    }
    assert(crate::text::strings(r@) =~= shown_documents(models(documents@)));
    r
}

/// A query for retrieval.
#[derive(Debug)]
pub struct RAGQuery {
    /// What is looked for.
    pub query: String,
    /// The largest number of documents.
    pub top_k: usize,
    /// The least score a document may have; `None` admits every score.
    pub score_threshold: Option<Ratio>,
    /// Pairs of metadata keys and values that narrow the search.
    pub filters: Option<Vec<(String, String)>>,
}

impl Default for RAGQuery {
    fn default() -> (q: Self)
        ensures
            q.query@.len() == 0,
            q.top_k == 5,
            q.score_threshold == Some(Ratio { num: 7, den: 10 }),
            q.filters is None,
    {
        RAGQuery {
            query: String::new(),
            top_k: 5,
            score_threshold: Some(Ratio { num: 7, den: 10 }),
            filters: None,
        }
    }
}

/// What retrieval gives: the documents found, best first, and the context
/// built from them.
#[derive(Debug)]
pub struct RAGResult {
    pub documents: Vec<DocumentChunk>,
    pub context: String,
}

/// What stands between the documentation and the prompt.
pub open spec fn documentation_divider() -> Seq<char> {
    "\n---\n\nBased on the above documentation, "@
}

/// What is said where the engine is asked before its knowledge base is filled.
pub open spec fn not_initialized_message() -> Seq<char> {
    "RAG engine not initialized"@
}

/// The assistant's knowledge: the indexed documents, what was learned from
/// corrections, and whether the knowledge base has been filled.
pub struct LocalRAGEngine {
    pub document_indexer: LocalDocumentIndexer,
    pub learning_engine: CommandLearningEngine,
    pub initialized: bool,
}

impl LocalRAGEngine {
    /// The engine's parts are in order.
    pub open spec fn well_formed(&self) -> bool {
        self.document_indexer.vector_store.well_formed() && self.learning_engine.well_formed()
    }

    /// The documentation that a prompt for a request quotes: none before
    /// the knowledge base is filled.
    pub open spec fn documentation_for(&self, user_input: Seq<char>) -> Seq<char> {
        if self.initialized {
            cli_context_for(self.document_indexer.vector_store.model(), user_input)
        } else {
            Seq::empty()
        }
    }

    /// An engine without documents that has learned nothing.
    pub fn new() -> (e: Self)
        ensures
            e.well_formed(),
            !e.initialized,
            e.document_indexer.vector_store.docs().len() == 0,
            e.learning_engine.records().len() == 0,
    {
        LocalRAGEngine {
            document_indexer: LocalDocumentIndexer::new(),
            learning_engine: CommandLearningEngine::new(),
            initialized: false,
        }
    }

    /// Fills the knowledge base with the basic knowledge, and returns how
    /// many chunks it gave.
    pub fn initialize(&mut self) -> (n: usize)
        requires
            old(self).well_formed(),
        ensures
            final(self).well_formed(),
            final(self).initialized,
            final(self).learning_engine == old(self).learning_engine,
            final(self).document_indexer.vector_store.model() == with_knowledge(
                old(self).document_indexer.vector_store.model(),
                basic_knowledge_texts(),
                "documentation"@,
                basic_knowledge_texts().len() as int,
            ),
            n == knowledge_chunk_count(
                basic_knowledge_texts(),
                basic_knowledge_texts().len() as int,
            ),
    {
        let n = self.document_indexer.initialize_knowledge_base();
        self.initialized = true;
        n
    }

    /// Whether the knowledge base has been filled.
    pub fn is_initialized(&self) -> (r: bool)
        ensures
            r == self.initialized,
    {
        self.initialized
    }

    /// What is told of the engine: whether its knowledge base has been
    /// filled, how many chunks it holds, and how many sources it has noted.
    pub fn stats(&self) -> (r: (bool, usize, usize))
        ensures
            r.0 == self.initialized,
            r.1 == self.document_indexer.vector_store.model().len(),
            r.2 == self.document_indexer.sources@.len(),
    {
        (
            self.initialized,
            self.document_indexer.vector_store.count(),
            self.document_indexer.sources.len(),
        )
    }

    /// Whether the engine can retrieve: its knowledge base has been filled.
    pub fn is_ready(&self) -> (r: bool)
        ensures
            r == self.initialized,
    {
        self.initialized
    }

    /// The documents that retrieval finds for a query, best first.
    pub open spec fn retrieved_for(&self, query: RAGQuery) -> Seq<ChunkModel> {
        search_results(
            self.document_indexer.vector_store.model(),
            query.query@,
            query.score_threshold,
            query.top_k as nat,
        )
    }

    /// Retrieves the documents for `query` and builds the context from
    /// them. An engine whose knowledge base has not been filled gives an
    /// error.
    pub fn retrieve(&self, query: &RAGQuery) -> (r: Result<RAGResult, Error>)
        requires
            self.well_formed(),
        ensures
            match r {
                Ok(found) => {
                    &&& self.initialized
                    &&& models(found.documents@) == self.retrieved_for(*query)
                    &&& crate::document::all_valid(found.documents@)
                    &&& found.context@ == documentation_context(self.retrieved_for(*query))
                },
                Err(e) => !self.initialized && (e matches Error::RAGEngine(m) && m@
                    == not_initialized_message()),
            },
    {
        if !self.initialized {
            return Err(Error::RAGEngine("RAG engine not initialized".to_owned()));
        }
        let config = SearchConfig { top_k: query.top_k, score_threshold: query.score_threshold };
        let documents = self.document_indexer.vector_store.search_chunks(
            query.query.as_str(),
            &config,
        );
        let context = build_context(&documents);
        Ok(RAGResult { documents, context })
    }

    /// The prompt after the documents `found` were retrieved for it: the
    /// prompt as it is where nothing was retrieved, and else the context
    /// built from the documents, the divider, and the prompt.
    pub open spec fn enhanced_with(found: Seq<ChunkModel>, prompt: Seq<char>) -> Seq<char> {
        if found.len() == 0 {
            prompt
        } else {
            documentation_context(found) + documentation_divider() + prompt
        }
    }

    /// The prompt with the documentation retrieved for `query` before it;
    /// the prompt unchanged where nothing is retrieved. An engine whose
    /// knowledge base has not been filled gives an error.
    pub fn enhance_prompt(&self, prompt: &str, query: &RAGQuery) -> (r: Result<String, Error>)
        requires
            self.well_formed(),
        ensures
            match r {
                Ok(enhanced) => self.initialized && enhanced@ == Self::enhanced_with(
                    self.retrieved_for(*query),
                    prompt@,
                ),
                Err(e) => !self.initialized && (e matches Error::RAGEngine(m) && m@
                    == not_initialized_message()),
            },
    {
        match self.retrieve(query) {
            Err(e) => Err(e),
            Ok(found) => {
                if found.documents.len() == 0 {
                    return Ok(prompt.to_owned());
                }
                let mut out = crate::text::chars_of(found.context.as_str());
                push_str(&mut out, "\n---\n\nBased on the above documentation, ");
                push_str(&mut out, prompt);
                Ok(string_of(&out))
            },
        }
    }

    /// The prompt of the assistant for `user_input`: with the documentation
    /// found for it, once the knowledge base is filled, and with what was
    /// learned from corrections.
    pub fn prompt_for(&self, user_input: &str) -> (r: String)
        requires
            self.well_formed(),
        ensures
            r@ == assistant_prompt(
                self.documentation_for(user_input@),
                learning_context(self.learning_engine.records(), user_input@),
                user_input@,
            ),
    {
        let learned = self.learning_engine.get_learning_context(user_input);
        let context = if self.initialized {
            self.document_indexer.get_cli_context(user_input)
        } else {
            String::new()
        };
        context_prompt(context.as_str(), learned.as_str(), user_input)
    }

    /// Up to three suggestions for a failed command.
    pub fn get_command_suggestions(&self, failed_command: &str, error_message: &str) -> (r: Vec<
        String,
    >)
        ensures
            crate::text::strings(r@) == best_sorted(
                suggestion_candidates(
                    self.learning_engine.records(),
                    self.learning_engine.pattern_keys(),
                    self.learning_engine.pattern_lists(),
                    failed_command@,
                ),
                MAX_SUGGESTIONS as nat,
            ),
    {
        self.learning_engine.get_suggestions(failed_command, Some(error_message))
    }

    /// Whether anything was learned that bears on `user_input`.
    pub fn has_learned_corrections(&self, user_input: &str) -> (r: bool)
        ensures
            r == (learning_context(self.learning_engine.records(), user_input@).len() > 0),
    {
        let context = self.learning_engine.get_learning_context(user_input);
        let chars = crate::text::chars_of(context.as_str());
        chars.len() > 0
    }

    /// The documents found for a query, at most `limit`, each shown with
    /// the source it is from.
    pub fn search_docs(&self, query: &str, limit: usize) -> (r: Vec<String>)
        requires
            self.well_formed(),
        ensures
            crate::text::strings(r@) == shown_documents(
                search_results(
                    self.document_indexer.vector_store.model(),
                    query@,
                    None,
                    limit as nat,
                ),
            ),
    {
        let chunks = self.document_indexer.search_context(query, limit);
        describe_documents(&chunks)
    }
}

/// The numbered entries of the first `n` documents in a context.
pub open spec fn documentation_entries(docs: Seq<ChunkModel>, n: int) -> Seq<char>
    decreases n,
{
    if n <= 0 {
        Seq::empty()
    } else {
        documentation_entries(docs, n - 1) + decimal(n as nat) + ". "@ + (
        match docs[n - 1].metadata_text("title"@) {
            Some(title) => "["@ + title + "] "@,
            None => Seq::empty(),
        }) + docs[n - 1].content + "\n\n"@
    }
}

/// The context built from documents: nothing for no documents, and else a
/// heading and the numbered documents, each with its title where it has one.
pub open spec fn documentation_context(docs: Seq<ChunkModel>) -> Seq<char> {
    if docs.len() == 0 {
        Seq::empty()
    } else {
        "Relevant IBM Cloud CLI documentation:\n\n"@ + documentation_entries(
            docs,
            docs.len() as int,
        )
    }
}

/// The context built from `documents`.
pub fn build_context(documents: &Vec<DocumentChunk>) -> (r: String)
    requires
        crate::document::all_valid(documents@),
    ensures
        r@ == documentation_context(models(documents@)),
{
    if documents.len() == 0 {
        return String::new();
    }
    let mut out: Vec<char> = Vec::new();
    push_str(&mut out, "Relevant IBM Cloud CLI documentation:\n\n");
    let ghost head = out@;
    let mut i: usize = 0;
    while i < documents.len()
        invariant
            i <= documents.len(),
            crate::document::all_valid(documents@),
            out@ == head + documentation_entries(models(documents@), i as int),
        decreases documents.len() - i,
    {
        let d = &documents[i];
        proof {
            d.lemma_metadata_text("title"@);
        }
        push_decimal(&mut out, i + 1);
        push_str(&mut out, ". ");
        match d.metadata.get_text("title") {
            Some(title) => {
                push_str(&mut out, "[");
                push_str(&mut out, title.as_str());
                push_str(&mut out, "] ");
            },
            None => {},
        }
        push_str(&mut out, d.content.as_str());
        push_str(&mut out, "\n\n");
        i = i + 1;
    }
    string_of(&out)
}

} // verus!
