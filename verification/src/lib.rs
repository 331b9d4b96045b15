//! A harvester core for a large, interlinked REST resource graph.
//!
//! Dozens of resource kinds are listed, fetched and mapped to
//! subject–predicate–object statements, which flow through a single fan-in
//! sink that serializes each statement to one line of text.  This crate
//! holds the verified core: the statement data model, the identity
//! assigner for named and anonymous references, the per-kind extractors,
//! the line encoder, the sink, and the pipeline coordinator.  Listing and
//! fetching over the network, progress rendering and file output are left
//! to the surrounding binary, which hands fetched documents in and writes
//! the produced lines out.

pub mod chars;
pub mod encode;
pub mod error;
pub mod extract;
pub mod ident;
pub mod iri;
pub mod kinds;
pub mod laws;
pub mod model;
pub mod pipeline;
pub mod resource;
pub mod sink;
pub mod statement;
pub mod text;
