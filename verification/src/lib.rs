//! Retrieval and learned-correction core of a cloud command-line assistant.
//!
//! The assistant turns requests in natural language into commands of the
//! command-line programs of cloud providers. This library holds what it
//! decides and computes, verified with Verus:
//!
//! - `text`, `string_map`, `ratio`, `sorted`, `ranking`, `similarity`:
//!   texts as sequences of characters, ordered maps, exact fractions,
//!   sorted lists, rankings and lexical overlap;
//! - `document`, `store`, `search`, `payload`: document chunks, the store
//!   that holds them by identifier, and similarity search over it;
//! - `chunking`, `html`, `document_indexer`, `local_document_indexer`,
//!   `reference_sources`, `knowledge`, `embedding`, `digest`: cutting text
//!   and web pages into chunks, indexing them, and the features from which
//!   embeddings are summed;
//! - `rag`: retrieval, context building and the confidence of a context;
//! - `learning`, `repository`: corrections learned from failures, error
//!   classification, retry strategies and success rates;
//! - `translator`, `generation`, `watsonx`, `quality`,
//!   `generation_quality`, `intent`: prompts, the reading of generated
//!   commands, generation with retries, and quality judgements;
//! - `cloud_provider`, `providers`, `domain`, `services`, `code_engine`,
//!   `execution`, `json_output`: providers, domain values, services, and
//!   what is decided around deployment and the run of a command;
//! - `patterns`, `clock`, `error`: regular expressions, the wall clock and
//!   the error type.
//!
//! Scores, rates and thresholds are exact fractions, and lengths are counted
//! in characters. What reaches outside the library, such as lower-casing,
//! digests, hashes, regular expressions, and the parsing of URLs, HTML and
//! JSON, stands behind small functions whose contracts name the outside
//! result without describing it.

pub mod text;
pub mod string_map;
pub mod ratio;
pub mod digest;
pub mod document;
pub mod chunking;
pub mod ranking;
pub mod similarity;
pub mod store;
pub mod search;
pub mod sorted;
pub mod patterns;
pub mod learning;
pub mod clock;
pub mod rag;
pub mod error;
pub mod cloud_provider;
pub mod providers;
pub mod domain;
pub mod code_engine;
pub mod watsonx;
pub mod quality;
pub mod intent;
pub mod json_output;
pub mod execution;
pub mod embedding;
pub mod html;
pub mod local_document_indexer;
pub mod document_indexer;
pub mod repository;
pub mod services;
pub mod reference_sources;
pub mod qdrant;
pub mod knowledge;
pub mod translator;
pub mod generation;
pub mod generation_quality;
pub mod payload;
