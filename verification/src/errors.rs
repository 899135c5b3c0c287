//! The structured errors this library reports.
//!
//! Every error carries enough fields to say what went wrong and where;
//! rendering them for people is left to the caller.

use vstd::prelude::*;

verus! {

#[derive(Debug, Clone)]
pub enum OrandaError {
    /// A configuration or data document is malformed or breaks its schema;
    /// `field` names the offending key.
    ConfigParse { field: String },
    /// A document parsed but is semantically invalid: two workspace members
    /// share `slug`.
    ConfigValidation { slug: String },
    /// Scanning the filesystem for workspace member candidates failed.
    Discovery { path: String },
    /// The persisted workspace state at `path` is present but unreadable.
    /// It is surfaced, never silently reset.
    StateCorruption { path: String },
    /// An external collaborator (renderer, book backend) failed.
    Collaborator { component: String, details: String },
    /// A repository URL could not be read as an owner/name pair.
    RepoParse { repo: String, details: String },
    /// A plain read, write or copy failure at `path`.
    Io { path: String },
}

} // verus!
