//! The package-managers subsection of the `artifacts` component: which
//! install commands the site offers, split into preferred and additional
//! ones, each an ordered map from label to command.

use vstd::prelude::*;

verus! {

use crate::layer::{apply_opt, spec_apply_opt, ApplyLayer};
use crate::ordered_map::{has_entry_key, map_contains_key, opt_map_view};

/// Package-manager install commands. This type is its own layer: every
/// field is optional, and absence means "inherit".
pub struct PackageManagersConfig {
    pub preferred: Option<indexmap::IndexMap<String, String>>,
    pub additional: Option<indexmap::IndexMap<String, String>>,
}

pub ghost struct PackageManagersConfigV {
    pub preferred: Option<Seq<(Seq<char>, Seq<char>)>>,
    pub additional: Option<Seq<(Seq<char>, Seq<char>)>>,
}

impl View for PackageManagersConfig {
    type V = PackageManagersConfigV;

    open spec fn view(&self) -> PackageManagersConfigV {
        PackageManagersConfigV {
            preferred: opt_map_view(self.preferred),
            additional: opt_map_view(self.additional),
        }
    }
}

/// Whether either list mentions the label `k`.
pub open spec fn pm_has(c: PackageManagersConfigV, k: Seq<char>) -> bool {
    ||| (c.preferred matches Some(es) && has_entry_key(es, k))
    ||| (c.additional matches Some(es) && has_entry_key(es, k))
}

impl Default for PackageManagersConfig {
    /// The built-in default: neither list is set.
    fn default() -> (r: Self)
        ensures
            r@.preferred is None,
            r@.additional is None,
    {
        PackageManagersConfig { preferred: None, additional: None }
    }
}

impl PackageManagersConfig {
    /// Whether either list mentions the label `key`.
    pub fn has(&self, key: &str) -> (r: bool)
        ensures
            r == pm_has(self@, key@),
    {
        let in_preferred = match &self.preferred {
            Some(p) => map_contains_key(p, key),
            None => false,
        };
        let in_additional = match &self.additional {
            Some(p) => map_contains_key(p, key),
            None => false,
        };
        in_preferred || in_additional
    }

    /// Whether an npm-family install command is offered.
    pub fn has_npm(&self) -> (r: bool)
        ensures
            r == (pm_has(self@, "npm"@) || pm_has(self@, "npx"@)),
    {
        self.has("npm") || self.has("npx")
    }

    /// Whether anything at all was configured here.
    pub fn has_some(&self) -> (r: bool)
        ensures
            r == (self@.preferred is Some || self@.additional is Some),
    {
        self.preferred.is_some() || self.additional.is_some()
    }
}

impl ApplyLayer for PackageManagersConfig {
    type Layer = PackageManagersConfig;

    open spec fn spec_apply(self, layer: PackageManagersConfig) -> PackageManagersConfig {
        PackageManagersConfig {
            preferred: spec_apply_opt(self.preferred, layer.preferred),
            additional: spec_apply_opt(self.additional, layer.additional),
        }
    }

    fn apply_layer(&mut self, layer: PackageManagersConfig) {
        let PackageManagersConfig { preferred, additional } = layer;
        apply_opt(&mut self.preferred, preferred);
        apply_opt(&mut self.additional, additional);
    }
}

} // verus!
