//! The remaining configuration sections: `project`, `marketing`, `styles`
//! and `components`, with the component settings they nest.

use vstd::prelude::*;

verus! {

use crate::artifacts::{ArtifactsConfig, ArtifactsConfigV};
use crate::layer::{apply_opt, apply_val, spec_apply_opt, spec_apply_val, ApplyLayer};
use crate::text::opt_view;

/// A component switch: plain `true`/`false`, or a whole settings table.
pub enum BoolOr<T> {
    Bool(bool),
    Val(T),
}

// ---------------------------------------------------------------------------
// project

/// Facts about the project itself. This type is its own layer: every field
/// is optional, and absence means "inherit".
pub struct ProjectConfig {
    pub name: Option<String>,
    pub description: Option<String>,
    pub repository: Option<String>,
}

pub ghost struct ProjectConfigV {
    pub name: Option<Seq<char>>,
    pub description: Option<Seq<char>>,
    pub repository: Option<Seq<char>>,
}

impl View for ProjectConfig {
    type V = ProjectConfigV;

    open spec fn view(&self) -> ProjectConfigV {
        ProjectConfigV {
            name: opt_view(self.name),
            description: opt_view(self.description),
            repository: opt_view(self.repository),
        }
    }
}

/// The built-in defaults of the `project` section: nothing known.
pub open spec fn project_default() -> ProjectConfigV {
    ProjectConfigV { name: None, description: None, repository: None }
}

/// Field-by-field merge of a `project` layer, at the level of views.
pub open spec fn apply_project(c: ProjectConfigV, l: ProjectConfigV) -> ProjectConfigV {
    ProjectConfigV {
        name: spec_apply_opt(c.name, l.name),
        description: spec_apply_opt(c.description, l.description),
        repository: spec_apply_opt(c.repository, l.repository),
    }
}

impl Default for ProjectConfig {
    fn default() -> (r: Self)
        ensures
            r@ == project_default(),
    {
        ProjectConfig { name: None, description: None, repository: None }
    }
}

impl ApplyLayer for ProjectConfig {
    type Layer = ProjectConfig;

    open spec fn spec_apply(self, layer: ProjectConfig) -> ProjectConfig {
        ProjectConfig {
            name: spec_apply_opt(self.name, layer.name),
            description: spec_apply_opt(self.description, layer.description),
            repository: spec_apply_opt(self.repository, layer.repository),
        }
    }

    fn apply_layer(&mut self, layer: ProjectConfig) {
        let ProjectConfig { name, description, repository } = layer;
        apply_opt(&mut self.name, name);
        apply_opt(&mut self.description, description);
        apply_opt(&mut self.repository, repository);
    }
}

/// Merging layers commutes with taking views.
pub proof fn lemma_apply_project_view(c: ProjectConfig, l: ProjectConfig)
    ensures
        c.spec_apply(l)@ == apply_project(c@, l@),
{
}

// ---------------------------------------------------------------------------
// marketing

/// Marketing hooks. This type is its own layer.
pub struct MarketingConfig {
    pub analytics: Option<String>,
}

pub ghost struct MarketingConfigV {
    pub analytics: Option<Seq<char>>,
}

impl View for MarketingConfig {
    type V = MarketingConfigV;

    open spec fn view(&self) -> MarketingConfigV {
        MarketingConfigV { analytics: opt_view(self.analytics) }
    }
}

pub open spec fn marketing_default() -> MarketingConfigV {
    MarketingConfigV { analytics: None }
}

pub open spec fn apply_marketing(c: MarketingConfigV, l: MarketingConfigV) -> MarketingConfigV {
    MarketingConfigV { analytics: spec_apply_opt(c.analytics, l.analytics) }
}

impl Default for MarketingConfig {
    fn default() -> (r: Self)
        ensures
            r@ == marketing_default(),
    {
        MarketingConfig { analytics: None }
    }
}

impl ApplyLayer for MarketingConfig {
    type Layer = MarketingConfig;

    open spec fn spec_apply(self, layer: MarketingConfig) -> MarketingConfig {
        MarketingConfig { analytics: spec_apply_opt(self.analytics, layer.analytics) }
    }

    fn apply_layer(&mut self, layer: MarketingConfig) {
        let MarketingConfig { analytics } = layer;
        apply_opt(&mut self.analytics, analytics);
    }
}

/// Merging layers commutes with taking views.
pub proof fn lemma_apply_marketing_view(c: MarketingConfig, l: MarketingConfig)
    ensures
        c.spec_apply(l)@ == apply_marketing(c@, l@),
{
}

// ---------------------------------------------------------------------------
// styles

/// A syntax-highlighting theme the renderer knows.
#[derive(Debug, Clone, Copy, PartialEq, Eq, Structural)]
pub enum SyntaxTheme {
    MaterialTheme,
}

impl SyntaxTheme {
    /// The theme's name as the highlighter spells it.
    pub fn as_str(&self) -> (r: &'static str)
        ensures
            r@ == "MaterialTheme"@,
    {
        match self {
            SyntaxTheme::MaterialTheme => "MaterialTheme",
        }
    }
}

/// How the site looks (complete version).
pub struct StyleConfig {
    pub theme: String,
    pub syntax_theme: SyntaxTheme,
}

/// How the site looks, as one source wants to override it.
pub struct StyleLayer {
    pub theme: Option<String>,
    pub syntax_theme: Option<SyntaxTheme>,
}

pub ghost struct StyleConfigV {
    pub theme: Seq<char>,
    pub syntax_theme: SyntaxTheme,
}

pub ghost struct StyleLayerV {
    pub theme: Option<Seq<char>>,
    pub syntax_theme: Option<SyntaxTheme>,
}

impl View for StyleConfig {
    type V = StyleConfigV;

    open spec fn view(&self) -> StyleConfigV {
        StyleConfigV { theme: self.theme@, syntax_theme: self.syntax_theme }
    }
}

impl View for StyleLayer {
    type V = StyleLayerV;

    open spec fn view(&self) -> StyleLayerV {
        StyleLayerV { theme: opt_view(self.theme), syntax_theme: self.syntax_theme }
    }
}

pub open spec fn styles_default() -> StyleConfigV {
    StyleConfigV { theme: "dark"@, syntax_theme: SyntaxTheme::MaterialTheme }
}

pub open spec fn apply_styles(c: StyleConfigV, l: StyleLayerV) -> StyleConfigV {
    StyleConfigV {
        theme: spec_apply_val(c.theme, l.theme),
        syntax_theme: spec_apply_val(c.syntax_theme, l.syntax_theme),
    }
}

impl Default for StyleConfig {
    fn default() -> (r: Self)
        ensures
            r@ == styles_default(),
    {
        StyleConfig { theme: "dark".to_owned(), syntax_theme: SyntaxTheme::MaterialTheme }
    }
}

impl StyleConfig {
    /// The syntax-highlighting theme to hand to renderers.
    pub fn syntax_theme(&self) -> (r: SyntaxTheme)
        ensures
            r == self@.syntax_theme,
    {
        self.syntax_theme
    }
}

impl ApplyLayer for StyleConfig {
    type Layer = StyleLayer;

    open spec fn spec_apply(self, layer: StyleLayer) -> StyleConfig {
        StyleConfig {
            theme: spec_apply_val(self.theme, layer.theme),
            syntax_theme: spec_apply_val(self.syntax_theme, layer.syntax_theme),
        }
    }

    fn apply_layer(&mut self, layer: StyleLayer) {
        let StyleLayer { theme, syntax_theme } = layer;
        apply_val(&mut self.theme, theme);
        apply_val(&mut self.syntax_theme, syntax_theme);
    }
}

/// Merging layers commutes with taking views.
pub proof fn lemma_apply_styles_view(c: StyleConfig, l: StyleLayer)
    ensures
        c.spec_apply(l)@ == apply_styles(c@, l@),
{
}

// ---------------------------------------------------------------------------
// mdbook component

/// Book-backend settings (complete version).
pub struct MdBookConfig {
    /// Path to the book directory, relative to the project root.
    pub path: String,
    /// Whether to inject the site's own theme; unset means yes.
    pub theme: Option<bool>,
}

/// Book-backend settings, as one source wants to override them.
pub struct MdBookLayer {
    pub path: Option<String>,
    pub theme: Option<bool>,
}

pub ghost struct MdBookConfigV {
    pub path: Seq<char>,
    pub theme: Option<bool>,
}

pub ghost struct MdBookLayerV {
    pub path: Option<Seq<char>>,
    pub theme: Option<bool>,
}

impl View for MdBookConfig {
    type V = MdBookConfigV;

    open spec fn view(&self) -> MdBookConfigV {
        MdBookConfigV { path: self.path@, theme: self.theme }
    }
}

impl View for MdBookLayer {
    type V = MdBookLayerV;

    open spec fn view(&self) -> MdBookLayerV {
        MdBookLayerV { path: opt_view(self.path), theme: self.theme }
    }
}

pub open spec fn mdbook_default() -> MdBookConfigV {
    MdBookConfigV { path: "book"@, theme: None }
}

pub open spec fn apply_mdbook(c: MdBookConfigV, l: MdBookLayerV) -> MdBookConfigV {
    MdBookConfigV {
        path: spec_apply_val(c.path, l.path),
        theme: spec_apply_opt(c.theme, l.theme),
    }
}

impl Default for MdBookConfig {
    fn default() -> (r: Self)
        ensures
            r@ == mdbook_default(),
    {
        MdBookConfig { path: "book".to_owned(), theme: None }
    }
}

impl MdBookConfig {
    /// Whether the site's theme is injected into the book; unset means yes.
    pub fn theme_enabled(&self) -> (r: bool)
        ensures
            r == (self@.theme is None || self@.theme == Some(true)),
    {
        self.theme.unwrap_or(true)
    }
}

impl ApplyLayer for MdBookConfig {
    type Layer = MdBookLayer;

    open spec fn spec_apply(self, layer: MdBookLayer) -> MdBookConfig {
        MdBookConfig {
            path: spec_apply_val(self.path, layer.path),
            theme: spec_apply_opt(self.theme, layer.theme),
        }
    }

    fn apply_layer(&mut self, layer: MdBookLayer) {
        let MdBookLayer { path, theme } = layer;
        apply_val(&mut self.path, path);
        apply_opt(&mut self.theme, theme);
    }
}

// ---------------------------------------------------------------------------
// funding component

/// Where funding data is read from. This type is its own layer.
pub struct FundingConfig {
    /// Path to a FUNDING.yml file.
    pub yml_path: Option<String>,
    /// Path to a Markdown file rendered onto the funding page.
    pub md_path: Option<String>,
}

pub ghost struct FundingConfigV {
    pub yml_path: Option<Seq<char>>,
    pub md_path: Option<Seq<char>>,
}

impl View for FundingConfig {
    type V = FundingConfigV;

    open spec fn view(&self) -> FundingConfigV {
        FundingConfigV { yml_path: opt_view(self.yml_path), md_path: opt_view(self.md_path) }
    }
}

pub open spec fn funding_cfg_default() -> FundingConfigV {
    FundingConfigV { yml_path: None, md_path: None }
}

pub open spec fn apply_funding_cfg(c: FundingConfigV, l: FundingConfigV) -> FundingConfigV {
    FundingConfigV {
        yml_path: spec_apply_opt(c.yml_path, l.yml_path),
        md_path: spec_apply_opt(c.md_path, l.md_path),
    }
}

impl Default for FundingConfig {
    fn default() -> (r: Self)
        ensures
            r@ == funding_cfg_default(),
    {
        FundingConfig { yml_path: None, md_path: None }
    }
}

impl ApplyLayer for FundingConfig {
    type Layer = FundingConfig;

    open spec fn spec_apply(self, layer: FundingConfig) -> FundingConfig {
        FundingConfig {
            yml_path: spec_apply_opt(self.yml_path, layer.yml_path),
            md_path: spec_apply_opt(self.md_path, layer.md_path),
        }
    }

    fn apply_layer(&mut self, layer: FundingConfig) {
        let FundingConfig { yml_path, md_path } = layer;
        apply_opt(&mut self.yml_path, yml_path);
        apply_opt(&mut self.md_path, md_path);
    }
}

} // verus!
