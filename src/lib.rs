//! A personal note store: an ordered collection of short notes, its
//! on-disk YAML form, and the index-based operations over it.
pub mod text;
pub mod note;
pub mod codec;
pub mod config;
pub mod engine;
