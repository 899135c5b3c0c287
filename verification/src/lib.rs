//! Layered configuration resolution and workspace build coordination for a
//! documentation-site generator.
//!
//! A project's configuration is assembled from partial, all-fields-optional
//! layers (built-in defaults, then the project's own file, then
//! workspace-provided overrides) with strict schema validation at each layer
//! boundary. A workspace groups member projects by slug, accumulates build
//! completions in a persisted state record, and decides when the aggregate
//! index may be generated.

pub mod artifacts;
pub mod builds;
pub mod components;
pub mod config;
pub mod document;
pub mod errors;
pub mod funding;
pub mod layer;
pub mod mdbook;
pub mod ordered_map;
pub mod orchestrator;
pub mod package_managers;
pub mod parse;
pub mod repo;
pub mod sections;
pub mod state;
pub mod text;
pub mod workspace;
