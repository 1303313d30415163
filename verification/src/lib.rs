//! Ingestion of GObject-Introspection metadata into a document model.
//!
//! An introspection file describes the API of a native library in XML: a
//! namespace with its classes, functions, macros and enumerations. This
//! crate walks the element tree of such a file and builds from it a
//! [`model::Document`], from which stubs for other languages are written.
//!
//! The walk is strict about the tags it meets and lenient about what is
//! missing. The children of a namespace and of a class come from a closed
//! set of tags, and a tag outside it ends the walk with a
//! [`error::WalkError`] and no document. An entry that lacks its name, a
//! parameter without a type, a callable marked as unusable from bindings:
//! these are left out and the walk goes on.
//!
//! - [`tree`]: the element tree and its lookups.
//! - [`types`]: the translation of native type names.
//! - [`callable`], [`enumeration`], [`class`], [`document`]: the extractors
//!   and the two walks, each with the function on views that says what it
//!   returns.
//! - [`xml`]: reading a document from XML text.
//! - [`laws`]: what holds of all of them for every input.
//! - [`options`]: the choices of a run.

pub mod callable;
pub mod class;
pub mod document;
pub mod enumeration;
pub mod error;
pub mod laws;
pub mod model;
pub mod options;
pub mod seqs;
pub mod text;
pub mod tree;
pub mod types;
pub mod xml;
