//! The `artifacts` component: whether release downloads are taken from
//! cargo-dist, and which package managers are advertised.

use vstd::prelude::*;

verus! {

use crate::layer::{apply_opt, spec_apply_opt, ApplyLayer};
use crate::package_managers::{PackageManagersConfig, PackageManagersConfigV};

/// Artifacts configuration. This type is its own layer: every field is
/// optional, and absence means "inherit".
pub struct ArtifactsConfig {
    pub cargo_dist: Option<bool>,
    pub package_managers: Option<PackageManagersConfig>,
}

pub ghost struct ArtifactsConfigV {
    pub cargo_dist: Option<bool>,
    pub package_managers: Option<PackageManagersConfigV>,
}

impl View for ArtifactsConfig {
    type V = ArtifactsConfigV;

    open spec fn view(&self) -> ArtifactsConfigV {
        ArtifactsConfigV {
            cargo_dist: self.cargo_dist,
            package_managers: match self.package_managers {
                Some(pm) => Some(pm@),
                None => None,
            },
        }
    }
}

/// The built-in defaults of the `artifacts` component: nothing set.
pub open spec fn artifacts_default() -> ArtifactsConfigV {
    ArtifactsConfigV { cargo_dist: None, package_managers: None }
}

/// Field-by-field merge of an `artifacts` layer, at the level of views.
pub open spec fn apply_artifacts(c: ArtifactsConfigV, l: ArtifactsConfigV) -> ArtifactsConfigV {
    ArtifactsConfigV {
        cargo_dist: spec_apply_opt(c.cargo_dist, l.cargo_dist),
        package_managers: spec_apply_opt(c.package_managers, l.package_managers),
    }
}

impl Default for ArtifactsConfig {
    /// The built-in default: nothing enabled, nothing set.
    fn default() -> (r: Self)
        ensures
            r@.cargo_dist is None,
            r@.package_managers is None,
    {
        ArtifactsConfig { cargo_dist: None, package_managers: None }
    }
}

impl ArtifactsConfig {
    /// Whether any artifacts feature was configured.
    pub fn has_some(&self) -> (r: bool)
        ensures
            r == (self@.cargo_dist == Some(true) || self@.package_managers is Some),
    {
        self.cargo_dist() || self.package_managers.is_some()
    }

    /// Whether cargo-dist integration is on; unset means off.
    pub fn cargo_dist(&self) -> (r: bool)
        ensures
            r == (self@.cargo_dist == Some(true)),
    {
        self.cargo_dist.unwrap_or(false)
    }
}

impl ApplyLayer for ArtifactsConfig {
    type Layer = ArtifactsConfig;

    open spec fn spec_apply(self, layer: ArtifactsConfig) -> ArtifactsConfig {
        ArtifactsConfig {
            cargo_dist: spec_apply_opt(self.cargo_dist, layer.cargo_dist),
            // Replaced whole when the layer sets it; merging the two maps
            // inside could be a future refinement.
            package_managers: spec_apply_opt(self.package_managers, layer.package_managers),
        }
    }

    fn apply_layer(&mut self, layer: ArtifactsConfig) {
        let ArtifactsConfig { cargo_dist, package_managers } = layer;
        apply_opt(&mut self.cargo_dist, cargo_dist);
        apply_opt(&mut self.package_managers, package_managers);
    }
}

} // verus!
