//! The error type of the library.

use vstd::prelude::*;
use crate::text::{push_str, string_of};

verus! {

/// What can go wrong, with a message each.
#[derive(Debug)]
pub enum Error {
    LLMProvider(String),
    RAGEngine(String),
    VectorStore(String),
    DocumentIndexer(String),
    Configuration(String),
    Authentication(String),
    Network(String),
    Serialization(String),
    InvalidInput(String),
    Timeout(String),
    Io(String),
    Other(String),
}

impl Error {
    /// The message that the error carries.
    pub open spec fn detail(&self) -> Seq<char> {
        match self {
            Error::LLMProvider(m) => m@,
            Error::RAGEngine(m) => m@,
            Error::VectorStore(m) => m@,
            Error::DocumentIndexer(m) => m@,
            Error::Configuration(m) => m@,
            Error::Authentication(m) => m@,
            Error::Network(m) => m@,
            Error::Serialization(m) => m@,
            Error::InvalidInput(m) => m@,
            Error::Timeout(m) => m@,
            Error::Io(m) => m@,
            Error::Other(m) => m@,
        }
    }

    /// The words that name the kind of the error.
    pub open spec fn label(&self) -> Seq<char> {
        match self {
            Error::LLMProvider(_) => "LLM provider error: "@,
            Error::RAGEngine(_) => "RAG engine error: "@,
            Error::VectorStore(_) => "Vector store error: "@,
            Error::DocumentIndexer(_) => "Document indexer error: "@,
            Error::Configuration(_) => "Configuration error: "@,
            Error::Authentication(_) => "Authentication error: "@,
            Error::Network(_) => "Network error: "@,
            Error::Serialization(_) => "Serialization error: "@,
            Error::InvalidInput(_) => "Invalid input: "@,
            Error::Timeout(_) => "Timeout error: "@,
            Error::Io(_) => "IO error: "@,
            Error::Other(_) => "Other error: "@,
        }
    }

    /// The error as a line of text: its kind, then its message.
    pub fn to_string(&self) -> (r: String)
        ensures
            r@ == self.label() + self.detail(),
    {
        let mut out: Vec<char> = Vec::new();
        match self {
            Error::LLMProvider(m) => {
                push_str(&mut out, "LLM provider error: ");
                push_str(&mut out, m.as_str());
            },
            Error::RAGEngine(m) => {
                push_str(&mut out, "RAG engine error: ");
                push_str(&mut out, m.as_str());
            },
            Error::VectorStore(m) => {
                push_str(&mut out, "Vector store error: ");
                push_str(&mut out, m.as_str());
            },
            Error::DocumentIndexer(m) => {
                push_str(&mut out, "Document indexer error: ");
                push_str(&mut out, m.as_str());
            },
            Error::Configuration(m) => {
                push_str(&mut out, "Configuration error: ");
                push_str(&mut out, m.as_str());
            },
            Error::Authentication(m) => {
                push_str(&mut out, "Authentication error: ");
                push_str(&mut out, m.as_str());
            },
            Error::Network(m) => {
                push_str(&mut out, "Network error: ");
                push_str(&mut out, m.as_str());
            },
            Error::Serialization(m) => {
                push_str(&mut out, "Serialization error: ");
                push_str(&mut out, m.as_str());
            },
            Error::InvalidInput(m) => {
                push_str(&mut out, "Invalid input: ");
                push_str(&mut out, m.as_str());
            },
            Error::Timeout(m) => {
                push_str(&mut out, "Timeout error: ");
                push_str(&mut out, m.as_str());
            },
            Error::Io(m) => {
                push_str(&mut out, "IO error: ");
                push_str(&mut out, m.as_str());
            },
            Error::Other(m) => {
                push_str(&mut out, "Other error: ");
                push_str(&mut out, m.as_str());
            },
        }
        string_of(&out)
    }
}

} // verus!
