//! The whole configuration: one layer type mirroring the file format, one
//! resolved type with every section populated, and the resolver that merges
//! defaults, the project's own layer and a workspace-provided layer, in
//! that fixed order of precedence.

use vstd::prelude::*;

verus! {

use crate::builds::{apply_build, build_default, BuildConfig, BuildLayer, BuildConfigV, BuildLayerV};
use crate::components::{
    apply_components, components_default, ComponentsConfig, ComponentsLayer, ComponentsConfigV,
    ComponentsLayerV,
};
use crate::layer::ApplyLayer;
use crate::sections::{
    apply_marketing, apply_project, apply_styles, marketing_default, project_default,
    styles_default, MarketingConfig, MarketingConfigV, ProjectConfig, ProjectConfigV, StyleConfig,
    StyleConfigV, StyleLayer, StyleLayerV,
};
use crate::text::opt_view;
use crate::workspace::{
    apply_workspace, workspace_default, WorkspaceConfig, WorkspaceConfigV, WorkspaceLayer,
    WorkspaceLayerV,
};

/// One source's whole configuration document: every section optional.
pub struct OrandaLayer {
    pub project: Option<ProjectConfig>,
    pub build: Option<BuildLayer>,
    pub marketing: Option<MarketingConfig>,
    pub styles: Option<StyleLayer>,
    pub components: Option<ComponentsLayer>,
    pub workspace: Option<WorkspaceLayer>,
    /// The schema-version marker the file format allows; carried, never
    /// merged into the resolved configuration.
    pub schema: Option<String>,
}

/// The fully resolved configuration of one project: every section concrete.
pub struct OrandaConfig {
    pub project: ProjectConfig,
    pub build: BuildConfig,
    pub marketing: MarketingConfig,
    pub styles: StyleConfig,
    pub components: ComponentsConfig,
    pub workspace: WorkspaceConfig,
}

pub ghost struct OrandaLayerV {
    pub project: Option<ProjectConfigV>,
    pub build: Option<BuildLayerV>,
    pub marketing: Option<MarketingConfigV>,
    pub styles: Option<StyleLayerV>,
    pub components: Option<ComponentsLayerV>,
    pub workspace: Option<WorkspaceLayerV>,
    pub schema: Option<Seq<char>>,
}

pub ghost struct OrandaConfigV {
    pub project: ProjectConfigV,
    pub build: BuildConfigV,
    pub marketing: MarketingConfigV,
    pub styles: StyleConfigV,
    pub components: ComponentsConfigV,
    pub workspace: WorkspaceConfigV,
}

impl View for OrandaLayer {
    type V = OrandaLayerV;

    open spec fn view(&self) -> OrandaLayerV {
        OrandaLayerV {
            project: match self.project {
                Some(s) => Some(s@),
                None => None,
            },
            build: match self.build {
                Some(s) => Some(s@),
                None => None,
            },
            marketing: match self.marketing {
                Some(s) => Some(s@),
                None => None,
            },
            styles: match self.styles {
                Some(s) => Some(s@),
                None => None,
            },
            components: match self.components {
                Some(s) => Some(s@),
                None => None,
            },
            workspace: match self.workspace {
                Some(s) => Some(s@),
                None => None,
            },
            schema: opt_view(self.schema),
        }
    }
}

impl View for OrandaConfig {
    type V = OrandaConfigV;

    open spec fn view(&self) -> OrandaConfigV {
        OrandaConfigV {
            project: self.project@,
            build: self.build@,
            marketing: self.marketing@,
            styles: self.styles@,
            components: self.components@,
            workspace: self.workspace@,
        }
    }
}

/// The built-in defaults, section by section.
pub open spec fn oranda_default() -> OrandaConfigV {
    OrandaConfigV {
        project: project_default(),
        build: build_default(),
        marketing: marketing_default(),
        styles: styles_default(),
        components: components_default(),
        workspace: workspace_default(),
    }
}

/// Merge one layer into a resolved configuration: each section the layer
/// carries is merged field by field; each section it omits is untouched.
pub open spec fn apply_oranda(c: OrandaConfigV, l: OrandaLayerV) -> OrandaConfigV {
    OrandaConfigV {
        project: match l.project {
            Some(s) => apply_project(c.project, s),
            None => c.project,
        },
        build: match l.build {
            Some(s) => apply_build(c.build, s),
            None => c.build,
        },
        marketing: match l.marketing {
            Some(s) => apply_marketing(c.marketing, s),
            None => c.marketing,
        },
        styles: match l.styles {
            Some(s) => apply_styles(c.styles, s),
            None => c.styles,
        },
        components: match l.components {
            Some(s) => apply_components(c.components, s),
            None => c.components,
        },
        workspace: match l.workspace {
            Some(s) => apply_workspace(c.workspace, s),
            None => c.workspace,
        },
    }
}

pub open spec fn apply_oranda_opt(c: OrandaConfigV, l: Option<OrandaLayerV>) -> OrandaConfigV {
    match l {
        Some(lv) => apply_oranda(c, lv),
        None => c,
    }
}

/// What resolution yields: built-in defaults, then the project's own
/// layer, then the workspace-provided layer, which therefore always wins.
pub open spec fn resolve_oranda(
    project_layer: Option<OrandaLayerV>,
    workspace_layer: Option<OrandaLayerV>,
) -> OrandaConfigV {
    apply_oranda_opt(apply_oranda_opt(oranda_default(), project_layer), workspace_layer)
}

pub open spec fn opt_layer_view(l: Option<OrandaLayer>) -> Option<OrandaLayerV> {
    match l {
        Some(lv) => Some(lv@),
        None => None,
    }
}

impl Default for OrandaConfig {
    fn default() -> (r: Self)
        ensures
            r@ == oranda_default(),
    {
        OrandaConfig {
            project: Default::default(),
            build: Default::default(),
            marketing: Default::default(),
            styles: Default::default(),
            components: Default::default(),
            workspace: Default::default(),
        }
    }
}

impl OrandaConfig {
    /// Merge one layer into this configuration, section by section.
    pub fn apply_layer(&mut self, layer: OrandaLayer)
        ensures
            final(self)@ == apply_oranda(old(self)@, layer@),
    {
        let OrandaLayer { project, build, marketing, styles, components, workspace, schema: _ } =
            layer;
        if let Some(s) = project {
            proof {
                crate::sections::lemma_apply_project_view(self.project, s);
            }
            self.project.apply_layer(s);
        }
        if let Some(s) = build {
            proof {
                crate::builds::lemma_apply_build_view(self.build, s);
            }
            self.build.apply_layer(s);
        }
        if let Some(s) = marketing {
            proof {
                crate::sections::lemma_apply_marketing_view(self.marketing, s);
            }
            self.marketing.apply_layer(s);
        }
        if let Some(s) = styles {
            proof {
                crate::sections::lemma_apply_styles_view(self.styles, s);
            }
            self.styles.apply_layer(s);
        }
        if let Some(s) = components {
            self.components.apply_layer(s);
        }
        if let Some(s) = workspace {
            proof {
                crate::workspace::lemma_apply_workspace_view(self.workspace, s);
            }
            self.workspace.apply_layer(s);
        }
    }
}

/// Resolve one project's configuration: built-in defaults first, the
/// project file's layer next, any workspace-provided layer last. The result
/// is a function of the two layers alone — nothing else flows in.
pub fn resolve_config(
    project_layer: Option<OrandaLayer>,
    workspace_layer: Option<OrandaLayer>,
) -> (r: OrandaConfig)
    ensures
        r@ == resolve_oranda(opt_layer_view(project_layer), opt_layer_view(workspace_layer)),
{
    let mut c = OrandaConfig::default();
    if let Some(l) = project_layer {
        c.apply_layer(l);
    }
    if let Some(l) = workspace_layer {
        c.apply_layer(l);
    }
    c
}

/// Resolution is deterministic: the same defaults and the same two layers
/// always resolve to the same configuration.
pub proof fn lemma_resolve_deterministic(
    p1: Option<OrandaLayerV>,
    w1: Option<OrandaLayerV>,
    p2: Option<OrandaLayerV>,
    w2: Option<OrandaLayerV>,
)
    requires
        p1 == p2,
        w1 == w2,
    ensures
        resolve_oranda(p1, w1) == resolve_oranda(p2, w2),
{
}

/// The workspace-provided layer always wins: a field it sets — here the
/// build output directory — resolves to its value, whatever the project's
/// own layer said.
pub proof fn lemma_workspace_layer_wins(p: Option<OrandaLayerV>, w: OrandaLayerV)
    requires
        w.build matches Some(b) && b.dist_dir is Some,
    ensures
        resolve_oranda(p, Some(w)).build.dist_dir == w.build.unwrap().dist_dir.unwrap(),
{
}

/// A field set by neither layer — here the build output directory — keeps
/// its built-in default.
pub proof fn lemma_default_dist_dir(p: Option<OrandaLayerV>, w: Option<OrandaLayerV>)
    requires
        p matches Some(l) ==> (l.build matches Some(b) ==> b.dist_dir is None),
        w matches Some(l) ==> (l.build matches Some(b) ==> b.dist_dir is None),
    ensures
        resolve_oranda(p, w).build.dist_dir == "public"@,
{
}

} // verus!
