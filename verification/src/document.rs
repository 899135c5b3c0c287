//! A plain structured-document tree: what a configuration or data file
//! holds once the text format (JSON, TOML, YAML) has been read off. The
//! strict schema checks of this library all work on this tree.

use vstd::prelude::*;

verus! {

/// One value of a structured key/value document.
pub enum DocValue {
    Bool(bool),
    Str(String),
    List(Vec<DocValue>),
    Dict(Vec<(String, DocValue)>),
}

/// Whether some entry of a dictionary has key `k`.
pub open spec fn dict_has_key(es: Seq<(String, DocValue)>, k: Seq<char>) -> bool {
    exists|i: int| 0 <= i < es.len() && es[i].0@ == k
}

} // verus!
