//! A diagnostic-capture bridge between a host caller and a source-to-source
//! preprocessing engine.
//!
//! The engine itself (tokenizing, parsing and transforming source text) is an
//! outside collaborator; this crate decodes host-supplied options, invokes the
//! engine, and turns a span-tagged parse failure into a host-consumable error
//! artifact that carries a one-line summary plus two full renderings (plain
//! and styled) of the offending source location.

pub mod artifact;
pub mod bridge;
pub mod buffer;
pub mod engine;
pub mod host;
pub mod text;
