//! Compile-time compiler for a declarative response-annotation language.
//!
//! The library parses one or more attribute occurrences describing HTTP
//! response metadata (status, description, body schema, headers, content-type
//! variants, examples), classifies the shape of the annotated declaration,
//! merges overlapping occurrences with deterministic override semantics,
//! resolves symbolic status codes against the standard HTTP status registry,
//! and emits an ordered sequence of builder-call instructions for an API
//! document's response objects.
//!
//! - [`tokens`] holds the token alphabet of the annotation language;
//! - [`error`] the error taxonomy and its deterministic messages;
//! - [`ast`] the typed intermediate forms and the canonical descriptor;
//! - [`parse`] the grammar of one attribute occurrence;
//! - [`merge`] the occurrence merge and the body-kind validation;
//! - [`status`] the status registry and the three literal validators;
//! - [`derive`] the declaration-level flow from shape to descriptor;
//! - [`emit`] the ordered instruction emission;
//! - [`routes`] the handler-discovery path rewriting;
//! - [`strutil`] small string helpers, including the two trusted
//!   wrappers over std string operations;
//! - [`laws`] the properties that relate several of these functions.

pub mod tokens;
pub mod error;
pub mod ast;
pub mod strutil;
pub mod status;
pub mod merge;
pub mod parse;
pub mod derive;
pub mod emit;
pub mod routes;
pub mod laws;
