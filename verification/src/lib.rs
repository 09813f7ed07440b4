//! An embeddable full-text search engine for Korean, Japanese and Chinese
//! text. Every free-text attribute is indexed twice, once through a
//! morphological segmenter and once through an n-gram tokenizer, so that a
//! query matches both whole morphemes and raw substrings.
//!
//! The index is a tantivy index and the segmenter a lindera tokenizer over
//! one of lindera's embedded dictionaries; the host enables the `embed-*`
//! features of lindera for the profiles that it uses. What this crate proves
//! is stated over a model of the index: its schema, its tokenizers and the
//! multiset of documents that a reader sees. The calls into tantivy, lindera
//! and serde_json are believed to do what their contracts say; everything
//! around them is verified.
//!
//! The engine is a value that the host owns and hands to every operation. An
//! index is written through one engine at a time.

pub mod dictionary;
pub mod document;
pub mod engine;
pub mod ident;
pub mod json;
pub mod laws;
pub mod lifecycle;
pub mod messages;
pub mod query;
pub mod result;
pub mod samples;
pub mod schema;
pub mod store;
pub mod structs;
pub mod value;

pub use dictionary::DictionaryType;
pub use document::DocumentInput;
pub use engine::{
    initialize_search_index, initialize_search_index_with_path, use_opened_index, SearchEngine,
};
pub use ident::generate_uuid;
pub use lifecycle::{
    add_document, add_documents, clear_all_documents, delete_document, delete_documents,
    index_sample_documents, update_document,
};
pub use query::{get_document_count, search_documents};
pub use result::SearchResult;
pub use structs::{Dictionary, Weekdays};
