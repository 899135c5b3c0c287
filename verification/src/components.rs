//! The `components` section: optional site features (book backend, funding
//! page, release artifacts), each switched or configured per layer.

use vstd::prelude::*;

verus! {

use crate::artifacts::{apply_artifacts, artifacts_default, ArtifactsConfig, ArtifactsConfigV};
use crate::layer::ApplyLayer;
use crate::sections::{
    apply_funding_cfg, apply_mdbook, funding_cfg_default, mdbook_default, BoolOr, FundingConfig,
    FundingConfigV, MdBookConfig, MdBookConfigV, MdBookLayer, MdBookLayerV,
};

/// Optional site features (complete version): `None` means the feature is
/// off, `Some` carries its settings.
pub struct ComponentsConfig {
    pub mdbook: Option<MdBookConfig>,
    pub funding: Option<FundingConfig>,
    pub artifacts: ArtifactsConfig,
}

/// Optional site features, as one source wants to override them. A feature
/// can be switched with a plain bool or configured with a table.
pub struct ComponentsLayer {
    pub mdbook: Option<BoolOr<MdBookLayer>>,
    pub funding: Option<BoolOr<FundingConfig>>,
    pub artifacts: Option<ArtifactsConfig>,
}

pub ghost struct ComponentsConfigV {
    pub mdbook: Option<MdBookConfigV>,
    pub funding: Option<FundingConfigV>,
    pub artifacts: ArtifactsConfigV,
}

pub ghost struct ComponentsLayerV {
    pub mdbook: Option<BoolOr<MdBookLayerV>>,
    pub funding: Option<BoolOr<FundingConfigV>>,
    pub artifacts: Option<ArtifactsConfigV>,
}

impl View for ComponentsConfig {
    type V = ComponentsConfigV;

    open spec fn view(&self) -> ComponentsConfigV {
        ComponentsConfigV {
            mdbook: match self.mdbook {
                Some(c) => Some(c@),
                None => None,
            },
            funding: match self.funding {
                Some(c) => Some(c@),
                None => None,
            },
            artifacts: self.artifacts@,
        }
    }
}

impl View for ComponentsLayer {
    type V = ComponentsLayerV;

    open spec fn view(&self) -> ComponentsLayerV {
        ComponentsLayerV {
            mdbook: match self.mdbook {
                Some(BoolOr::Bool(b)) => Some(BoolOr::Bool(b)),
                Some(BoolOr::Val(l)) => Some(BoolOr::Val(l@)),
                None => None,
            },
            funding: match self.funding {
                Some(BoolOr::Bool(b)) => Some(BoolOr::Bool(b)),
                Some(BoolOr::Val(l)) => Some(BoolOr::Val(l@)),
                None => None,
            },
            artifacts: match self.artifacts {
                Some(a) => Some(a@),
                None => None,
            },
        }
    }
}

/// The built-in defaults of the `components` section: every feature off.
pub open spec fn components_default() -> ComponentsConfigV {
    ComponentsConfigV { mdbook: None, funding: None, artifacts: artifacts_default() }
}

/// What a bool-or-table layer does to the book feature: `false` switches it
/// off, `true` switches it on with its current (or default) settings, a
/// table merges into the current (or default) settings.
pub open spec fn apply_mdbook_switch(cur: Option<MdBookConfigV>, l: BoolOr<MdBookLayerV>) -> Option<
    MdBookConfigV,
> {
    match l {
        BoolOr::Bool(false) => None,
        BoolOr::Bool(true) => match cur {
            Some(c) => Some(c),
            None => Some(mdbook_default()),
        },
        BoolOr::Val(lv) => match cur {
            Some(c) => Some(apply_mdbook(c, lv)),
            None => Some(apply_mdbook(mdbook_default(), lv)),
        },
    }
}

/// Like [`apply_mdbook_switch`], for the funding feature.
pub open spec fn apply_funding_switch(cur: Option<FundingConfigV>, l: BoolOr<FundingConfigV>) -> Option<
    FundingConfigV,
> {
    match l {
        BoolOr::Bool(false) => None,
        BoolOr::Bool(true) => match cur {
            Some(c) => Some(c),
            None => Some(funding_cfg_default()),
        },
        BoolOr::Val(lv) => match cur {
            Some(c) => Some(apply_funding_cfg(c, lv)),
            None => Some(apply_funding_cfg(funding_cfg_default(), lv)),
        },
    }
}

/// Field-by-field merge of a `components` layer, at the level of views.
pub open spec fn apply_components(c: ComponentsConfigV, l: ComponentsLayerV) -> ComponentsConfigV {
    ComponentsConfigV {
        mdbook: match l.mdbook {
            Some(sw) => apply_mdbook_switch(c.mdbook, sw),
            None => c.mdbook,
        },
        funding: match l.funding {
            Some(sw) => apply_funding_switch(c.funding, sw),
            None => c.funding,
        },
        artifacts: match l.artifacts {
            Some(a) => apply_artifacts(c.artifacts, a),
            None => c.artifacts,
        },
    }
}

impl Default for ComponentsConfig {
    fn default() -> (r: Self)
        ensures
            r@ == components_default(),
    {
        ComponentsConfig { mdbook: None, funding: None, artifacts: Default::default() }
    }
}

impl ComponentsConfig {
    /// Merge a `components` layer into these settings.
    pub fn apply_layer(&mut self, layer: ComponentsLayer)
        ensures
            final(self)@ == apply_components(old(self)@, layer@),
    {
        let ComponentsLayer { mdbook, funding, artifacts } = layer;
        if let Some(sw) = mdbook {
            match sw {
                BoolOr::Bool(false) => {
                    self.mdbook = None;
                },
                BoolOr::Bool(true) => {
                    if self.mdbook.is_none() {
                        self.mdbook = Some(Default::default());
                    }
                },
                BoolOr::Val(lv) => {
                    let mut cur: MdBookConfig = match self.mdbook.take() {
                        Some(c) => c,
                        None => Default::default(),
                    };
                    cur.apply_layer(lv);
                    self.mdbook = Some(cur);
                },
            }
        }
        if let Some(sw) = funding {
            match sw {
                BoolOr::Bool(false) => {
                    self.funding = None;
                },
                BoolOr::Bool(true) => {
                    if self.funding.is_none() {
                        self.funding = Some(Default::default());
                    }
                },
                BoolOr::Val(lv) => {
                    let mut cur: FundingConfig = match self.funding.take() {
                        Some(c) => c,
                        None => Default::default(),
                    };
                    cur.apply_layer(lv);
                    self.funding = Some(cur);
                },
            }
        }
        if let Some(a) = artifacts {
            self.artifacts.apply_layer(a);
        }
    }
}

} // verus!
