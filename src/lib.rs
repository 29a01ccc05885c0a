//! Format negotiation and parser dispatch for RDF documents.
//!
//! The library resolves which concrete RDF syntax a document is written in,
//! from an explicit syntax, a media type or a file extension, and hands the
//! document to the matching parsing engine behind one streaming interface.
pub mod syntax;
pub mod file_extension;
pub mod media_type;
pub mod correspondence;
pub mod syntax_hint;
pub mod stream;
pub mod errors;
pub mod quads;
pub mod triples;
