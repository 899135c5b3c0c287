//! Strict layer parsing: turning a structured document into configuration
//! layers, rejecting every key the schema does not know.

use vstd::prelude::*;

verus! {

use crate::artifacts::{ArtifactsConfig, ArtifactsConfigV};
use crate::builds::{BuildLayer, BuildLayerV};
use crate::package_managers::{PackageManagersConfig, PackageManagersConfigV};
use crate::sections::{
    MarketingConfig, MarketingConfigV, ProjectConfig, ProjectConfigV, StyleLayer, StyleLayerV,
    BoolOr, FundingConfig, FundingConfigV, MdBookLayer, MdBookLayerV, SyntaxTheme,
};
use crate::document::DocValue;
use crate::errors::OrandaError;
use crate::ordered_map::{has_entry_key, map_contains_key, map_entries, map_insert, map_new};
use crate::components::{ComponentsLayer, ComponentsLayerV};
use crate::config::{OrandaLayer, OrandaLayerV};
use crate::text::{opt_view, str_eq};
use crate::workspace::{
    members_view, WorkspaceLayer, WorkspaceLayerV, WorkspaceMember, WorkspaceMemberV,
};

// ---------------------------------------------------------------------------
// page maps

/// Parse a dictionary of page labels to page paths, front to back. A value
/// that is not a string, or a repeated label, fails naming the label.
pub open spec fn spec_parse_pages_from(
    es: Seq<(String, DocValue)>,
    acc: Seq<(Seq<char>, Seq<char>)>,
) -> Result<Seq<(Seq<char>, Seq<char>)>, Seq<char>>
    decreases es.len(),
{
    if es.len() == 0 {
        Ok(acc)
    } else {
        match es[0].1 {
            DocValue::Str(s) => if has_entry_key(acc, es[0].0@) {
                Err(es[0].0@)
            } else {
                spec_parse_pages_from(es.skip(1), acc.push((es[0].0@, s@)))
            },
            _ => Err(es[0].0@),
        }
    }
}

pub open spec fn spec_parse_pages(es: Seq<(String, DocValue)>) -> Result<
    Seq<(Seq<char>, Seq<char>)>,
    Seq<char>,
> {
    spec_parse_pages_from(es, Seq::empty())
}

/// Parse a label-to-path dictionary into an ordered map.
fn parse_pages(es: &Vec<(String, DocValue)>) -> (r: Result<
    indexmap::IndexMap<String, String>,
    OrandaError,
>)
    ensures
        r matches Ok(m) ==> spec_parse_pages(es@) == Ok::<_, Seq<char>>(map_entries(m)),
        r matches Err(e) ==> (e matches OrandaError::ConfigParse { field } && spec_parse_pages(es@)
            == Err::<Seq<(Seq<char>, Seq<char>)>, _>(field@)),
{
    let mut m = map_new();
    let mut i: usize = 0;
    assert(es@.skip(0) =~= es@);
    while i < es.len()
        invariant
            i <= es@.len(),
            spec_parse_pages_from(es@.skip(i as int), map_entries(m)) == spec_parse_pages(es@),
        decreases es@.len() - i,
    {
        proof {
            assert(es@.skip(i as int)[0] == es@[i as int]);
            assert(es@.skip(i as int).skip(1) =~= es@.skip(i + 1));
        }
        let e = &es[i];
        match &e.1 {
            DocValue::Str(s) => {
                if map_contains_key(&m, e.0.as_str()) {
                    return Err(OrandaError::ConfigParse { field: e.0.clone() });
                }
                let _ = map_insert(&mut m, e.0.clone(), s.clone());
            },
            _ => {
                return Err(OrandaError::ConfigParse { field: e.0.clone() });
            },
        }
        i = i + 1;
    }
    assert(es@.skip(es@.len() as int).len() == 0);
    Ok(m)
}

// ---------------------------------------------------------------------------
// the build section

/// The layer that sets nothing.
pub open spec fn build_layer_empty() -> BuildLayerV {
    BuildLayerV { dist_dir: None, static_dir: None, path_prefix: None, additional_pages: None }
}

/// The keys the `build` section knows.
pub open spec fn recognized_build_key(k: Seq<char>) -> bool {
    ||| k == "dist_dir"@
    ||| k == "static_dir"@
    ||| k == "path_prefix"@
    ||| k == "additional_pages"@
}

/// Parse the `build` section's entries, front to back: an unknown key, a
/// repeated key, or a value of the wrong shape fails naming the key.
pub open spec fn spec_parse_build_from(es: Seq<(String, DocValue)>, acc: BuildLayerV) -> Result<
    BuildLayerV,
    Seq<char>,
>
    decreases es.len(),
{
    if es.len() == 0 {
        Ok(acc)
    } else {
        let k = es[0].0@;
        if k == "dist_dir"@ {
            match es[0].1 {
                DocValue::Str(s) => if acc.dist_dir is Some {
                    Err(k)
                } else {
                    spec_parse_build_from(
                        es.skip(1),
                        BuildLayerV { dist_dir: Some(s@), ..acc },
                    )
                },
                _ => Err(k),
            }
        } else if k == "static_dir"@ {
            match es[0].1 {
                DocValue::Str(s) => if acc.static_dir is Some {
                    Err(k)
                } else {
                    spec_parse_build_from(
                        es.skip(1),
                        BuildLayerV { static_dir: Some(s@), ..acc },
                    )
                },
                _ => Err(k),
            }
        } else if k == "path_prefix"@ {
            match es[0].1 {
                DocValue::Str(s) => if acc.path_prefix is Some {
                    Err(k)
                } else {
                    spec_parse_build_from(
                        es.skip(1),
                        BuildLayerV { path_prefix: Some(s@), ..acc },
                    )
                },
                _ => Err(k),
            }
        } else if k == "additional_pages"@ {
            match es[0].1 {
                DocValue::Dict(pes) => if acc.additional_pages is Some {
                    Err(k)
                } else {
                    match spec_parse_pages(pes@) {
                        Ok(ps) => spec_parse_build_from(
                            es.skip(1),
                            BuildLayerV { additional_pages: Some(ps), ..acc },
                        ),
                        Err(f) => Err(f),
                    }
                },
                _ => Err(k),
            }
        } else {
            Err(k)
        }
    }
}

pub open spec fn spec_parse_build(es: Seq<(String, DocValue)>) -> Result<BuildLayerV, Seq<char>> {
    spec_parse_build_from(es, build_layer_empty())
}

/// A `build` section that parses has no unrecognized keys: nothing is
/// silently ignored.
pub proof fn lemma_parse_build_strict(es: Seq<(String, DocValue)>, acc: BuildLayerV)
    ensures
        spec_parse_build_from(es, acc) is Ok ==> forall|i: int|
            0 <= i < es.len() ==> recognized_build_key(#[trigger] es[i].0@),
    decreases es.len(),
{
    if es.len() != 0 && spec_parse_build_from(es, acc) is Ok {
        let k = es[0].0@;
        if k == "dist_dir"@ {
            if let DocValue::Str(s) = es[0].1 {
                lemma_parse_build_strict(es.skip(1), BuildLayerV { dist_dir: Some(s@), ..acc });
            }
        } else if k == "static_dir"@ {
            if let DocValue::Str(s) = es[0].1 {
                lemma_parse_build_strict(es.skip(1), BuildLayerV { static_dir: Some(s@), ..acc });
            }
        } else if k == "path_prefix"@ {
            if let DocValue::Str(s) = es[0].1 {
                lemma_parse_build_strict(es.skip(1), BuildLayerV { path_prefix: Some(s@), ..acc });
            }
        } else if k == "additional_pages"@ {
            if let DocValue::Dict(pes) = es[0].1 {
                if let Ok(ps) = spec_parse_pages(pes@) {
                    lemma_parse_build_strict(
                        es.skip(1),
                        BuildLayerV { additional_pages: Some(ps), ..acc },
                    );
                }
            }
        }
        assert forall|i: int| 0 <= i < es.len() implies recognized_build_key(
            #[trigger] es[i].0@,
        ) by {
            if i > 0 {
                assert(es.skip(1)[i - 1] == es[i]);
            }
        }
    }
}

/// Parse the `build` section.
pub fn parse_build_layer(es: &Vec<(String, DocValue)>) -> (r: Result<BuildLayer, OrandaError>)
    ensures
        r matches Ok(l) ==> spec_parse_build(es@) == Ok::<_, Seq<char>>(l@),
        r matches Err(e) ==> (e matches OrandaError::ConfigParse { field } && spec_parse_build(es@)
            == Err::<BuildLayerV, _>(field@)),
{
    let mut acc = BuildLayer {
        dist_dir: None,
        static_dir: None,
        path_prefix: None,
        additional_pages: None,
    };
    assert(acc@ == build_layer_empty());
    let mut i: usize = 0;
    assert(es@.skip(0) =~= es@);
    while i < es.len()
        invariant
            i <= es@.len(),
            spec_parse_build_from(es@.skip(i as int), acc@) == spec_parse_build(es@),
        decreases es@.len() - i,
    {
        proof {
            assert(es@.skip(i as int)[0] == es@[i as int]);
            assert(es@.skip(i as int).skip(1) =~= es@.skip(i + 1));
        }
        let e = &es[i];
        let k = &e.0;
        if str_eq(k.as_str(), "dist_dir") {
            match &e.1 {
                DocValue::Str(s) => {
                    if acc.dist_dir.is_some() {
                        return Err(OrandaError::ConfigParse { field: k.clone() });
                    }
                    acc.dist_dir = Some(s.clone());
                },
                _ => {
                    return Err(OrandaError::ConfigParse { field: k.clone() });
                },
            }
        } else if str_eq(k.as_str(), "static_dir") {
            match &e.1 {
                DocValue::Str(s) => {
                    if acc.static_dir.is_some() {
                        return Err(OrandaError::ConfigParse { field: k.clone() });
                    }
                    acc.static_dir = Some(s.clone());
                },
                _ => {
                    return Err(OrandaError::ConfigParse { field: k.clone() });
                },
            }
        } else if str_eq(k.as_str(), "path_prefix") {
            match &e.1 {
                DocValue::Str(s) => {
                    if acc.path_prefix.is_some() {
                        return Err(OrandaError::ConfigParse { field: k.clone() });
                    }
                    acc.path_prefix = Some(s.clone());
                },
                _ => {
                    return Err(OrandaError::ConfigParse { field: k.clone() });
                },
            }
        } else if str_eq(k.as_str(), "additional_pages") {
            match &e.1 {
                DocValue::Dict(pes) => {
                    if acc.additional_pages.is_some() {
                        return Err(OrandaError::ConfigParse { field: k.clone() });
                    }
                    match parse_pages(pes) {
                        Ok(m) => {
                            acc.additional_pages = Some(m);
                        },
                        Err(err) => {
                            return Err(err);
                        },
                    }
                },
                _ => {
                    return Err(OrandaError::ConfigParse { field: k.clone() });
                },
            }
        } else {
            return Err(OrandaError::ConfigParse { field: k.clone() });
        }
        i = i + 1;
    }
    assert(es@.skip(es@.len() as int).len() == 0);
    Ok(acc)
}

// ---------------------------------------------------------------------------
// sections with only optional scalar fields

/// Parse the `project` section's entries: `name`, `description`,
/// `repository`, each a string set at most once.
pub open spec fn spec_parse_project_from(es: Seq<(String, DocValue)>, acc: ProjectConfigV) -> Result<
    ProjectConfigV,
    Seq<char>,
>
    decreases es.len(),
{
    if es.len() == 0 {
        Ok(acc)
    } else {
        let k = es[0].0@;
        if k == "name"@ {
            match es[0].1 {
                DocValue::Str(s) => if acc.name is Some {
                    Err(k)
                } else {
                    spec_parse_project_from(es.skip(1), ProjectConfigV { name: Some(s@), ..acc })
                },
                _ => Err(k),
            }
        } else if k == "description"@ {
            match es[0].1 {
                DocValue::Str(s) => if acc.description is Some {
                    Err(k)
                } else {
                    spec_parse_project_from(
                        es.skip(1),
                        ProjectConfigV { description: Some(s@), ..acc },
                    )
                },
                _ => Err(k),
            }
        } else if k == "repository"@ {
            match es[0].1 {
                DocValue::Str(s) => if acc.repository is Some {
                    Err(k)
                } else {
                    spec_parse_project_from(
                        es.skip(1),
                        ProjectConfigV { repository: Some(s@), ..acc },
                    )
                },
                _ => Err(k),
            }
        } else {
            Err(k)
        }
    }
}

pub open spec fn spec_parse_project(es: Seq<(String, DocValue)>) -> Result<
    ProjectConfigV,
    Seq<char>,
> {
    spec_parse_project_from(
        es,
        ProjectConfigV { name: None, description: None, repository: None },
    )
}

/// Parse the `project` section.
pub fn parse_project_layer(es: &Vec<(String, DocValue)>) -> (r: Result<ProjectConfig, OrandaError>)
    ensures
        r matches Ok(l) ==> spec_parse_project(es@) == Ok::<_, Seq<char>>(l@),
        r matches Err(e) ==> (e matches OrandaError::ConfigParse { field } && spec_parse_project(
            es@,
        ) == Err::<ProjectConfigV, _>(field@)),
{
    let mut acc = ProjectConfig { name: None, description: None, repository: None };
    let mut i: usize = 0;
    assert(es@.skip(0) =~= es@);
    while i < es.len()
        invariant
            i <= es@.len(),
            spec_parse_project_from(es@.skip(i as int), acc@) == spec_parse_project(es@),
        decreases es@.len() - i,
    {
        proof {
            assert(es@.skip(i as int)[0] == es@[i as int]);
            assert(es@.skip(i as int).skip(1) =~= es@.skip(i + 1));
        }
        let e = &es[i];
        let k = &e.0;
        if str_eq(k.as_str(), "name") {
            match &e.1 {
                DocValue::Str(s) => {
                    if acc.name.is_some() {
                        return Err(OrandaError::ConfigParse { field: k.clone() });
                    }
                    acc.name = Some(s.clone());
                },
                _ => {
                    return Err(OrandaError::ConfigParse { field: k.clone() });
                },
            }
        } else if str_eq(k.as_str(), "description") {
            match &e.1 {
                DocValue::Str(s) => {
                    if acc.description.is_some() {
                        return Err(OrandaError::ConfigParse { field: k.clone() });
                    }
                    acc.description = Some(s.clone());
                },
                _ => {
                    return Err(OrandaError::ConfigParse { field: k.clone() });
                },
            }
        } else if str_eq(k.as_str(), "repository") {
            match &e.1 {
                DocValue::Str(s) => {
                    if acc.repository.is_some() {
                        return Err(OrandaError::ConfigParse { field: k.clone() });
                    }
                    acc.repository = Some(s.clone());
                },
                _ => {
                    return Err(OrandaError::ConfigParse { field: k.clone() });
                },
            }
        } else {
            return Err(OrandaError::ConfigParse { field: k.clone() });
        }
        i = i + 1;
    }
    assert(es@.skip(es@.len() as int).len() == 0);
    Ok(acc)
}

/// Parse the `marketing` section's entries: `analytics`, a string.
pub open spec fn spec_parse_marketing_from(
    es: Seq<(String, DocValue)>,
    acc: MarketingConfigV,
) -> Result<MarketingConfigV, Seq<char>>
    decreases es.len(),
{
    if es.len() == 0 {
        Ok(acc)
    } else {
        let k = es[0].0@;
        if k == "analytics"@ {
            match es[0].1 {
                DocValue::Str(s) => if acc.analytics is Some {
                    Err(k)
                } else {
                    spec_parse_marketing_from(es.skip(1), MarketingConfigV { analytics: Some(s@) })
                },
                _ => Err(k),
            }
        } else {
            Err(k)
        }
    }
}

pub open spec fn spec_parse_marketing(es: Seq<(String, DocValue)>) -> Result<
    MarketingConfigV,
    Seq<char>,
> {
    spec_parse_marketing_from(es, MarketingConfigV { analytics: None })
}

/// Parse the `marketing` section.
pub fn parse_marketing_layer(es: &Vec<(String, DocValue)>) -> (r: Result<
    MarketingConfig,
    OrandaError,
>)
    ensures
        r matches Ok(l) ==> spec_parse_marketing(es@) == Ok::<_, Seq<char>>(l@),
        r matches Err(e) ==> (e matches OrandaError::ConfigParse { field }
            && spec_parse_marketing(es@) == Err::<MarketingConfigV, _>(field@)),
{
    let mut acc = MarketingConfig { analytics: None };
    let mut i: usize = 0;
    assert(es@.skip(0) =~= es@);
    while i < es.len()
        invariant
            i <= es@.len(),
            spec_parse_marketing_from(es@.skip(i as int), acc@) == spec_parse_marketing(es@),
        decreases es@.len() - i,
    {
        proof {
            assert(es@.skip(i as int)[0] == es@[i as int]);
            assert(es@.skip(i as int).skip(1) =~= es@.skip(i + 1));
        }
        let e = &es[i];
        let k = &e.0;
        if str_eq(k.as_str(), "analytics") {
            match &e.1 {
                DocValue::Str(s) => {
                    if acc.analytics.is_some() {
                        return Err(OrandaError::ConfigParse { field: k.clone() });
                    }
                    acc.analytics = Some(s.clone());
                },
                _ => {
                    return Err(OrandaError::ConfigParse { field: k.clone() });
                },
            }
        } else {
            return Err(OrandaError::ConfigParse { field: k.clone() });
        }
        i = i + 1;
    }
    assert(es@.skip(es@.len() as int).len() == 0);
    Ok(acc)
}

/// Parse the `styles` section's entries: `theme`, a string, and
/// `syntax_theme`, the name of a known highlighting theme.
pub open spec fn spec_parse_styles_from(es: Seq<(String, DocValue)>, acc: StyleLayerV) -> Result<
    StyleLayerV,
    Seq<char>,
>
    decreases es.len(),
{
    if es.len() == 0 {
        Ok(acc)
    } else {
        let k = es[0].0@;
        if k == "theme"@ {
            match es[0].1 {
                DocValue::Str(s) => if acc.theme is Some {
                    Err(k)
                } else {
                    spec_parse_styles_from(es.skip(1), StyleLayerV { theme: Some(s@), ..acc })
                },
                _ => Err(k),
            }
        } else if k == "syntax_theme"@ {
            match es[0].1 {
                DocValue::Str(s) => if acc.syntax_theme is Some || s@ != "MaterialTheme"@ {
                    Err(k)
                } else {
                    spec_parse_styles_from(
                        es.skip(1),
                        StyleLayerV { syntax_theme: Some(SyntaxTheme::MaterialTheme), ..acc },
                    )
                },
                _ => Err(k),
            }
        } else {
            Err(k)
        }
    }
}

pub open spec fn spec_parse_styles(es: Seq<(String, DocValue)>) -> Result<StyleLayerV, Seq<char>> {
    spec_parse_styles_from(es, StyleLayerV { theme: None, syntax_theme: None })
}

/// Parse the `styles` section.
pub fn parse_styles_layer(es: &Vec<(String, DocValue)>) -> (r: Result<StyleLayer, OrandaError>)
    ensures
        r matches Ok(l) ==> spec_parse_styles(es@) == Ok::<_, Seq<char>>(l@),
        r matches Err(e) ==> (e matches OrandaError::ConfigParse { field } && spec_parse_styles(
            es@,
        ) == Err::<StyleLayerV, _>(field@)),
{
    let mut acc = StyleLayer { theme: None, syntax_theme: None };
    let mut i: usize = 0;
    assert(es@.skip(0) =~= es@);
    while i < es.len()
        invariant
            i <= es@.len(),
            spec_parse_styles_from(es@.skip(i as int), acc@) == spec_parse_styles(es@),
        decreases es@.len() - i,
    {
        proof {
            assert(es@.skip(i as int)[0] == es@[i as int]);
            assert(es@.skip(i as int).skip(1) =~= es@.skip(i + 1));
        }
        let e = &es[i];
        let k = &e.0;
        if str_eq(k.as_str(), "theme") {
            match &e.1 {
                DocValue::Str(s) => {
                    if acc.theme.is_some() {
                        return Err(OrandaError::ConfigParse { field: k.clone() });
                    }
                    acc.theme = Some(s.clone());
                },
                _ => {
                    return Err(OrandaError::ConfigParse { field: k.clone() });
                },
            }
        } else if str_eq(k.as_str(), "syntax_theme") {
            match &e.1 {
                DocValue::Str(s) => {
                    if acc.syntax_theme.is_some() || !str_eq(s.as_str(), "MaterialTheme") {
                        return Err(OrandaError::ConfigParse { field: k.clone() });
                    }
                    acc.syntax_theme = Some(SyntaxTheme::MaterialTheme);
                },
                _ => {
                    return Err(OrandaError::ConfigParse { field: k.clone() });
                },
            }
        } else {
            return Err(OrandaError::ConfigParse { field: k.clone() });
        }
        i = i + 1;
    }
    assert(es@.skip(es@.len() as int).len() == 0);
    Ok(acc)
}

// ---------------------------------------------------------------------------
// component settings

/// Parse the book component's table: `path`, a string, and `theme`, a
/// bool.
pub open spec fn spec_parse_mdbook_from(es: Seq<(String, DocValue)>, acc: MdBookLayerV) -> Result<
    MdBookLayerV,
    Seq<char>,
>
    decreases es.len(),
{
    if es.len() == 0 {
        Ok(acc)
    } else {
        let k = es[0].0@;
        if k == "path"@ {
            match es[0].1 {
                DocValue::Str(s) => if acc.path is Some {
                    Err(k)
                } else {
                    spec_parse_mdbook_from(es.skip(1), MdBookLayerV { path: Some(s@), ..acc })
                },
                _ => Err(k),
            }
        } else if k == "theme"@ {
            match es[0].1 {
                DocValue::Bool(b) => if acc.theme is Some {
                    Err(k)
                } else {
                    spec_parse_mdbook_from(es.skip(1), MdBookLayerV { theme: Some(b), ..acc })
                },
                _ => Err(k),
            }
        } else {
            Err(k)
        }
    }
}

pub open spec fn spec_parse_mdbook(es: Seq<(String, DocValue)>) -> Result<MdBookLayerV, Seq<char>> {
    spec_parse_mdbook_from(es, MdBookLayerV { path: None, theme: None })
}

/// Parse the book component's table.
pub fn parse_mdbook_layer(es: &Vec<(String, DocValue)>) -> (r: Result<MdBookLayer, OrandaError>)
    ensures
        r matches Ok(l) ==> spec_parse_mdbook(es@) == Ok::<_, Seq<char>>(l@),
        r matches Err(e) ==> (e matches OrandaError::ConfigParse { field } && spec_parse_mdbook(
            es@,
        ) == Err::<MdBookLayerV, _>(field@)),
{
    let mut acc = MdBookLayer { path: None, theme: None };
    let mut i: usize = 0;
    assert(es@.skip(0) =~= es@);
    while i < es.len()
        invariant
            i <= es@.len(),
            spec_parse_mdbook_from(es@.skip(i as int), acc@) == spec_parse_mdbook(es@),
        decreases es@.len() - i,
    {
        proof {
            assert(es@.skip(i as int)[0] == es@[i as int]);
            assert(es@.skip(i as int).skip(1) =~= es@.skip(i + 1));
        }
        let e = &es[i];
        let k = &e.0;
        if str_eq(k.as_str(), "path") {
            match &e.1 {
                DocValue::Str(s) => {
                    if acc.path.is_some() {
                        return Err(OrandaError::ConfigParse { field: k.clone() });
                    }
                    acc.path = Some(s.clone());
                },
                _ => {
                    return Err(OrandaError::ConfigParse { field: k.clone() });
                },
            }
        } else if str_eq(k.as_str(), "theme") {
            match &e.1 {
                DocValue::Bool(b) => {
                    if acc.theme.is_some() {
                        return Err(OrandaError::ConfigParse { field: k.clone() });
                    }
                    acc.theme = Some(*b);
                },
                _ => {
                    return Err(OrandaError::ConfigParse { field: k.clone() });
                },
            }
        } else {
            return Err(OrandaError::ConfigParse { field: k.clone() });
        }
        i = i + 1;
    }
    assert(es@.skip(es@.len() as int).len() == 0);
    Ok(acc)
}

/// Parse the funding component's table: `yml_path` and `md_path`, each a
/// string.
pub open spec fn spec_parse_funding_cfg_from(
    es: Seq<(String, DocValue)>,
    acc: FundingConfigV,
) -> Result<FundingConfigV, Seq<char>>
    decreases es.len(),
{
    if es.len() == 0 {
        Ok(acc)
    } else {
        let k = es[0].0@;
        if k == "yml_path"@ {
            match es[0].1 {
                DocValue::Str(s) => if acc.yml_path is Some {
                    Err(k)
                } else {
                    spec_parse_funding_cfg_from(
                        es.skip(1),
                        FundingConfigV { yml_path: Some(s@), ..acc },
                    )
                },
                _ => Err(k),
            }
        } else if k == "md_path"@ {
            match es[0].1 {
                DocValue::Str(s) => if acc.md_path is Some {
                    Err(k)
                } else {
                    spec_parse_funding_cfg_from(
                        es.skip(1),
                        FundingConfigV { md_path: Some(s@), ..acc },
                    )
                },
                _ => Err(k),
            }
        } else {
            Err(k)
        }
    }
}

pub open spec fn spec_parse_funding_cfg(es: Seq<(String, DocValue)>) -> Result<
    FundingConfigV,
    Seq<char>,
> {
    spec_parse_funding_cfg_from(es, FundingConfigV { yml_path: None, md_path: None })
}

/// Parse the funding component's table.
pub fn parse_funding_cfg_layer(es: &Vec<(String, DocValue)>) -> (r: Result<
    FundingConfig,
    OrandaError,
>)
    ensures
        r matches Ok(l) ==> spec_parse_funding_cfg(es@) == Ok::<_, Seq<char>>(l@),
        r matches Err(e) ==> (e matches OrandaError::ConfigParse { field }
            && spec_parse_funding_cfg(es@) == Err::<FundingConfigV, _>(field@)),
{
    let mut acc = FundingConfig { yml_path: None, md_path: None };
    let mut i: usize = 0;
    assert(es@.skip(0) =~= es@);
    while i < es.len()
        invariant
            i <= es@.len(),
            spec_parse_funding_cfg_from(es@.skip(i as int), acc@) == spec_parse_funding_cfg(es@),
        decreases es@.len() - i,
    {
        proof {
            assert(es@.skip(i as int)[0] == es@[i as int]);
            assert(es@.skip(i as int).skip(1) =~= es@.skip(i + 1));
        }
        let e = &es[i];
        let k = &e.0;
        if str_eq(k.as_str(), "yml_path") {
            match &e.1 {
                DocValue::Str(s) => {
                    if acc.yml_path.is_some() {
                        return Err(OrandaError::ConfigParse { field: k.clone() });
                    }
                    acc.yml_path = Some(s.clone());
                },
                _ => {
                    return Err(OrandaError::ConfigParse { field: k.clone() });
                },
            }
        } else if str_eq(k.as_str(), "md_path") {
            match &e.1 {
                DocValue::Str(s) => {
                    if acc.md_path.is_some() {
                        return Err(OrandaError::ConfigParse { field: k.clone() });
                    }
                    acc.md_path = Some(s.clone());
                },
                _ => {
                    return Err(OrandaError::ConfigParse { field: k.clone() });
                },
            }
        } else {
            return Err(OrandaError::ConfigParse { field: k.clone() });
        }
        i = i + 1;
    }
    assert(es@.skip(es@.len() as int).len() == 0);
    Ok(acc)
}

/// Parse the `package_managers` table: `preferred` and `additional`, each
/// a dictionary of label to install command.
pub open spec fn spec_parse_package_managers_from(
    es: Seq<(String, DocValue)>,
    acc: PackageManagersConfigV,
) -> Result<PackageManagersConfigV, Seq<char>>
    decreases es.len(),
{
    if es.len() == 0 {
        Ok(acc)
    } else {
        let k = es[0].0@;
        if k == "preferred"@ {
            match es[0].1 {
                DocValue::Dict(pes) => if acc.preferred is Some {
                    Err(k)
                } else {
                    match spec_parse_pages(pes@) {
                        Ok(ps) => spec_parse_package_managers_from(
                            es.skip(1),
                            PackageManagersConfigV { preferred: Some(ps), ..acc },
                        ),
                        Err(f) => Err(f),
                    }
                },
                _ => Err(k),
            }
        } else if k == "additional"@ {
            match es[0].1 {
                DocValue::Dict(pes) => if acc.additional is Some {
                    Err(k)
                } else {
                    match spec_parse_pages(pes@) {
                        Ok(ps) => spec_parse_package_managers_from(
                            es.skip(1),
                            PackageManagersConfigV { additional: Some(ps), ..acc },
                        ),
                        Err(f) => Err(f),
                    }
                },
                _ => Err(k),
            }
        } else {
            Err(k)
        }
    }
}

pub open spec fn spec_parse_package_managers(es: Seq<(String, DocValue)>) -> Result<
    PackageManagersConfigV,
    Seq<char>,
> {
    spec_parse_package_managers_from(
        es,
        PackageManagersConfigV { preferred: None, additional: None },
    )
}

/// Parse the `package_managers` table.
pub fn parse_package_managers_layer(es: &Vec<(String, DocValue)>) -> (r: Result<
    PackageManagersConfig,
    OrandaError,
>)
    ensures
        r matches Ok(l) ==> spec_parse_package_managers(es@) == Ok::<_, Seq<char>>(l@),
        r matches Err(e) ==> (e matches OrandaError::ConfigParse { field }
            && spec_parse_package_managers(es@) == Err::<PackageManagersConfigV, _>(field@)),
{
    let mut acc = PackageManagersConfig { preferred: None, additional: None };
    let mut i: usize = 0;
    assert(es@.skip(0) =~= es@);
    while i < es.len()
        invariant
            i <= es@.len(),
            spec_parse_package_managers_from(es@.skip(i as int), acc@)
                == spec_parse_package_managers(es@),
        decreases es@.len() - i,
    {
        proof {
            assert(es@.skip(i as int)[0] == es@[i as int]);
            assert(es@.skip(i as int).skip(1) =~= es@.skip(i + 1));
        }
        let e = &es[i];
        let k = &e.0;
        if str_eq(k.as_str(), "preferred") {
            match &e.1 {
                DocValue::Dict(pes) => {
                    if acc.preferred.is_some() {
                        return Err(OrandaError::ConfigParse { field: k.clone() });
                    }
                    match parse_pages(pes) {
                        Ok(m) => {
                            acc.preferred = Some(m);
                        },
                        Err(err) => {
                            return Err(err);
                        },
                    }
                },
                _ => {
                    return Err(OrandaError::ConfigParse { field: k.clone() });
                },
            }
        } else if str_eq(k.as_str(), "additional") {
            match &e.1 {
                DocValue::Dict(pes) => {
                    if acc.additional.is_some() {
                        return Err(OrandaError::ConfigParse { field: k.clone() });
                    }
                    match parse_pages(pes) {
                        Ok(m) => {
                            acc.additional = Some(m);
                        },
                        Err(err) => {
                            return Err(err);
                        },
                    }
                },
                _ => {
                    return Err(OrandaError::ConfigParse { field: k.clone() });
                },
            }
        } else {
            return Err(OrandaError::ConfigParse { field: k.clone() });
        }
        i = i + 1;
    }
    assert(es@.skip(es@.len() as int).len() == 0);
    Ok(acc)
}

/// Parse the `artifacts` table: `cargo_dist`, a bool, and
/// `package_managers`, a table.
pub open spec fn spec_parse_artifacts_from(
    es: Seq<(String, DocValue)>,
    acc: ArtifactsConfigV,
) -> Result<ArtifactsConfigV, Seq<char>>
    decreases es.len(),
{
    if es.len() == 0 {
        Ok(acc)
    } else {
        let k = es[0].0@;
        if k == "cargo_dist"@ {
            match es[0].1 {
                DocValue::Bool(b) => if acc.cargo_dist is Some {
                    Err(k)
                } else {
                    spec_parse_artifacts_from(
                        es.skip(1),
                        ArtifactsConfigV { cargo_dist: Some(b), ..acc },
                    )
                },
                _ => Err(k),
            }
        } else if k == "package_managers"@ {
            match es[0].1 {
                DocValue::Dict(pes) => if acc.package_managers is Some {
                    Err(k)
                } else {
                    match spec_parse_package_managers(pes@) {
                        Ok(pm) => spec_parse_artifacts_from(
                            es.skip(1),
                            ArtifactsConfigV { package_managers: Some(pm), ..acc },
                        ),
                        Err(f) => Err(f),
                    }
                },
                _ => Err(k),
            }
        } else {
            Err(k)
        }
    }
}

pub open spec fn spec_parse_artifacts(es: Seq<(String, DocValue)>) -> Result<
    ArtifactsConfigV,
    Seq<char>,
> {
    spec_parse_artifacts_from(es, ArtifactsConfigV { cargo_dist: None, package_managers: None })
}

/// Parse the `artifacts` table.
pub fn parse_artifacts_layer(es: &Vec<(String, DocValue)>) -> (r: Result<
    ArtifactsConfig,
    OrandaError,
>)
    ensures
        r matches Ok(l) ==> spec_parse_artifacts(es@) == Ok::<_, Seq<char>>(l@),
        r matches Err(e) ==> (e matches OrandaError::ConfigParse { field }
            && spec_parse_artifacts(es@) == Err::<ArtifactsConfigV, _>(field@)),
{
    let mut acc = ArtifactsConfig { cargo_dist: None, package_managers: None };
    let mut i: usize = 0;
    assert(es@.skip(0) =~= es@);
    while i < es.len()
        invariant
            i <= es@.len(),
            spec_parse_artifacts_from(es@.skip(i as int), acc@) == spec_parse_artifacts(es@),
        decreases es@.len() - i,
    {
        proof {
            assert(es@.skip(i as int)[0] == es@[i as int]);
            assert(es@.skip(i as int).skip(1) =~= es@.skip(i + 1));
        }
        let e = &es[i];
        let k = &e.0;
        if str_eq(k.as_str(), "cargo_dist") {
            match &e.1 {
                DocValue::Bool(b) => {
                    if acc.cargo_dist.is_some() {
                        return Err(OrandaError::ConfigParse { field: k.clone() });
                    }
                    acc.cargo_dist = Some(*b);
                },
                _ => {
                    return Err(OrandaError::ConfigParse { field: k.clone() });
                },
            }
        } else if str_eq(k.as_str(), "package_managers") {
            match &e.1 {
                DocValue::Dict(pes) => {
                    if acc.package_managers.is_some() {
                        return Err(OrandaError::ConfigParse { field: k.clone() });
                    }
                    match parse_package_managers_layer(pes) {
                        Ok(pm) => {
                            acc.package_managers = Some(pm);
                        },
                        Err(err) => {
                            return Err(err);
                        },
                    }
                },
                _ => {
                    return Err(OrandaError::ConfigParse { field: k.clone() });
                },
            }
        } else {
            return Err(OrandaError::ConfigParse { field: k.clone() });
        }
        i = i + 1;
    }
    assert(es@.skip(es@.len() as int).len() == 0);
    Ok(acc)
}

// ---------------------------------------------------------------------------
// the components section

/// Parse the `components` section's entries: each feature is a bool
/// switch or its own settings table.
pub open spec fn spec_parse_components_from(
    es: Seq<(String, DocValue)>,
    acc: ComponentsLayerV,
) -> Result<ComponentsLayerV, Seq<char>>
    decreases es.len(),
{
    if es.len() == 0 {
        Ok(acc)
    } else {
        let k = es[0].0@;
        if k == "mdbook"@ {
            if acc.mdbook is Some {
                Err(k)
            } else {
                match es[0].1 {
                    DocValue::Bool(b) => spec_parse_components_from(
                        es.skip(1),
                        ComponentsLayerV { mdbook: Some(BoolOr::Bool(b)), ..acc },
                    ),
                    DocValue::Dict(pes) => match spec_parse_mdbook(pes@) {
                        Ok(l) => spec_parse_components_from(
                            es.skip(1),
                            ComponentsLayerV { mdbook: Some(BoolOr::Val(l)), ..acc },
                        ),
                        Err(f) => Err(f),
                    },
                    _ => Err(k),
                }
            }
        } else if k == "funding"@ {
            if acc.funding is Some {
                Err(k)
            } else {
                match es[0].1 {
                    DocValue::Bool(b) => spec_parse_components_from(
                        es.skip(1),
                        ComponentsLayerV { funding: Some(BoolOr::Bool(b)), ..acc },
                    ),
                    DocValue::Dict(pes) => match spec_parse_funding_cfg(pes@) {
                        Ok(l) => spec_parse_components_from(
                            es.skip(1),
                            ComponentsLayerV { funding: Some(BoolOr::Val(l)), ..acc },
                        ),
                        Err(f) => Err(f),
                    },
                    _ => Err(k),
                }
            }
        } else if k == "artifacts"@ {
            if acc.artifacts is Some {
                Err(k)
            } else {
                match es[0].1 {
                    DocValue::Dict(pes) => match spec_parse_artifacts(pes@) {
                        Ok(l) => spec_parse_components_from(
                            es.skip(1),
                            ComponentsLayerV { artifacts: Some(l), ..acc },
                        ),
                        Err(f) => Err(f),
                    },
                    _ => Err(k),
                }
            }
        } else {
            Err(k)
        }
    }
}

pub open spec fn spec_parse_components(es: Seq<(String, DocValue)>) -> Result<
    ComponentsLayerV,
    Seq<char>,
> {
    spec_parse_components_from(
        es,
        ComponentsLayerV { mdbook: None, funding: None, artifacts: None },
    )
}

/// Parse the `components` section.
pub fn parse_components_layer(es: &Vec<(String, DocValue)>) -> (r: Result<
    ComponentsLayer,
    OrandaError,
>)
    ensures
        r matches Ok(l) ==> spec_parse_components(es@) == Ok::<_, Seq<char>>(l@),
        r matches Err(e) ==> (e matches OrandaError::ConfigParse { field }
            && spec_parse_components(es@) == Err::<ComponentsLayerV, _>(field@)),
{
    let mut acc = ComponentsLayer { mdbook: None, funding: None, artifacts: None };
    let mut i: usize = 0;
    assert(es@.skip(0) =~= es@);
    while i < es.len()
        invariant
            i <= es@.len(),
            spec_parse_components_from(es@.skip(i as int), acc@) == spec_parse_components(es@),
        decreases es@.len() - i,
    {
        proof {
            assert(es@.skip(i as int)[0] == es@[i as int]);
            assert(es@.skip(i as int).skip(1) =~= es@.skip(i + 1));
        }
        let e = &es[i];
        let k = &e.0;
        if str_eq(k.as_str(), "mdbook") {
            if acc.mdbook.is_some() {
                return Err(OrandaError::ConfigParse { field: k.clone() });
            }
            match &e.1 {
                DocValue::Bool(b) => {
                    acc.mdbook = Some(BoolOr::Bool(*b));
                },
                DocValue::Dict(pes) => match parse_mdbook_layer(pes) {
                    Ok(l) => {
                        acc.mdbook = Some(BoolOr::Val(l));
                    },
                    Err(err) => {
                        return Err(err);
                    },
                },
                _ => {
                    return Err(OrandaError::ConfigParse { field: k.clone() });
                },
            }
        } else if str_eq(k.as_str(), "funding") {
            if acc.funding.is_some() {
                return Err(OrandaError::ConfigParse { field: k.clone() });
            }
            match &e.1 {
                DocValue::Bool(b) => {
                    acc.funding = Some(BoolOr::Bool(*b));
                },
                DocValue::Dict(pes) => match parse_funding_cfg_layer(pes) {
                    Ok(l) => {
                        acc.funding = Some(BoolOr::Val(l));
                    },
                    Err(err) => {
                        return Err(err);
                    },
                },
                _ => {
                    return Err(OrandaError::ConfigParse { field: k.clone() });
                },
            }
        } else if str_eq(k.as_str(), "artifacts") {
            if acc.artifacts.is_some() {
                return Err(OrandaError::ConfigParse { field: k.clone() });
            }
            match &e.1 {
                DocValue::Dict(pes) => match parse_artifacts_layer(pes) {
                    Ok(l) => {
                        acc.artifacts = Some(l);
                    },
                    Err(err) => {
                        return Err(err);
                    },
                },
                _ => {
                    return Err(OrandaError::ConfigParse { field: k.clone() });
                },
            }
        } else {
            return Err(OrandaError::ConfigParse { field: k.clone() });
        }
        i = i + 1;
    }
    assert(es@.skip(es@.len() as int).len() == 0);
    Ok(acc)
}

// ---------------------------------------------------------------------------
// the workspace section

/// Parse one member table: exactly a `slug` and a `path`, both strings. A
/// missing one fails naming it.
pub open spec fn spec_parse_member_from(
    es: Seq<(String, DocValue)>,
    slug: Option<Seq<char>>,
    path: Option<Seq<char>>,
) -> Result<WorkspaceMemberV, Seq<char>>
    decreases es.len(),
{
    if es.len() == 0 {
        match (slug, path) {
            (Some(s), Some(p)) => Ok(WorkspaceMemberV { slug: s, path: p }),
            (None, _) => Err("slug"@),
            (Some(_), None) => Err("path"@),
        }
    } else {
        let k = es[0].0@;
        if k == "slug"@ {
            match es[0].1 {
                DocValue::Str(s) => if slug is Some {
                    Err(k)
                } else {
                    spec_parse_member_from(es.skip(1), Some(s@), path)
                },
                _ => Err(k),
            }
        } else if k == "path"@ {
            match es[0].1 {
                DocValue::Str(s) => if path is Some {
                    Err(k)
                } else {
                    spec_parse_member_from(es.skip(1), slug, Some(s@))
                },
                _ => Err(k),
            }
        } else {
            Err(k)
        }
    }
}

pub open spec fn spec_parse_member(es: Seq<(String, DocValue)>) -> Result<
    WorkspaceMemberV,
    Seq<char>,
> {
    spec_parse_member_from(es, None, None)
}

/// Parse one member table.
pub fn parse_member(es: &Vec<(String, DocValue)>) -> (r: Result<WorkspaceMember, OrandaError>)
    ensures
        r matches Ok(m) ==> spec_parse_member(es@) == Ok::<_, Seq<char>>(m@),
        r matches Err(e) ==> (e matches OrandaError::ConfigParse { field } && spec_parse_member(
            es@,
        ) == Err::<WorkspaceMemberV, _>(field@)),
{
    let mut slug: Option<String> = None;
    let mut path: Option<String> = None;
    let mut i: usize = 0;
    assert(es@.skip(0) =~= es@);
    while i < es.len()
        invariant
            i <= es@.len(),
            spec_parse_member_from(es@.skip(i as int), opt_view(slug), opt_view(path))
                == spec_parse_member(es@),
        decreases es@.len() - i,
    {
        proof {
            assert(es@.skip(i as int)[0] == es@[i as int]);
            assert(es@.skip(i as int).skip(1) =~= es@.skip(i + 1));
        }
        let e = &es[i];
        let k = &e.0;
        if str_eq(k.as_str(), "slug") {
            match &e.1 {
                DocValue::Str(s) => {
                    if slug.is_some() {
                        return Err(OrandaError::ConfigParse { field: k.clone() });
                    }
                    slug = Some(s.clone());
                },
                _ => {
                    return Err(OrandaError::ConfigParse { field: k.clone() });
                },
            }
        } else if str_eq(k.as_str(), "path") {
            match &e.1 {
                DocValue::Str(s) => {
                    if path.is_some() {
                        return Err(OrandaError::ConfigParse { field: k.clone() });
                    }
                    path = Some(s.clone());
                },
                _ => {
                    return Err(OrandaError::ConfigParse { field: k.clone() });
                },
            }
        } else {
            return Err(OrandaError::ConfigParse { field: k.clone() });
        }
        i = i + 1;
    }
    assert(es@.skip(es@.len() as int).len() == 0);
    match (slug, path) {
        (Some(s), Some(p)) => Ok(WorkspaceMember { slug: s, path: p }),
        (None, _) => Err(OrandaError::ConfigParse { field: "slug".to_owned() }),
        (Some(_), None) => Err(OrandaError::ConfigParse { field: "path".to_owned() }),
    }
}

/// Parse the member list: each element a member table.
pub open spec fn spec_parse_members_from(
    vs: Seq<DocValue>,
    acc: Seq<WorkspaceMemberV>,
) -> Result<Seq<WorkspaceMemberV>, Seq<char>>
    decreases vs.len(),
{
    if vs.len() == 0 {
        Ok(acc)
    } else {
        match vs[0] {
            DocValue::Dict(es) => match spec_parse_member(es@) {
                Ok(m) => spec_parse_members_from(vs.skip(1), acc.push(m)),
                Err(f) => Err(f),
            },
            _ => Err("members"@),
        }
    }
}

pub open spec fn spec_parse_members(vs: Seq<DocValue>) -> Result<Seq<WorkspaceMemberV>, Seq<char>> {
    spec_parse_members_from(vs, Seq::empty())
}

/// Parse the member list.
pub fn parse_members(vs: &Vec<DocValue>) -> (r: Result<Vec<WorkspaceMember>, OrandaError>)
    ensures
        r matches Ok(ms) ==> spec_parse_members(vs@) == Ok::<_, Seq<char>>(members_view(ms@)),
        r matches Err(e) ==> (e matches OrandaError::ConfigParse { field } && spec_parse_members(
            vs@,
        ) == Err::<Seq<WorkspaceMemberV>, _>(field@)),
{
    let mut out: Vec<WorkspaceMember> = Vec::new();
    let mut i: usize = 0;
    assert(vs@.skip(0) =~= vs@);
    assert(members_view(out@) =~= Seq::<WorkspaceMemberV>::empty());
    while i < vs.len()
        invariant
            i <= vs@.len(),
            spec_parse_members_from(vs@.skip(i as int), members_view(out@)) == spec_parse_members(
                vs@,
            ),
        decreases vs@.len() - i,
    {
        proof {
            assert(vs@.skip(i as int)[0] == vs@[i as int]);
            assert(vs@.skip(i as int).skip(1) =~= vs@.skip(i + 1));
        }
        match &vs[i] {
            DocValue::Dict(es) => match parse_member(es) {
                Ok(m) => {
                    let ghost prev = members_view(out@);
                    let ghost mv = m@;
                    out.push(m);
                    proof {
                        assert(members_view(out@) =~= prev.push(mv));
                    }
                },
                Err(err) => {
                    return Err(err);
                },
            },
            _ => {
                return Err(OrandaError::ConfigParse { field: "members".to_owned() });
            },
        }
        i = i + 1;
    }
    assert(vs@.skip(vs@.len() as int).len() == 0);
    Ok(out)
}

/// Parse the `workspace` section's entries: `name`, a string,
/// `generate_index` and `auto`, bools, and `members`, a list of member
/// tables.
pub open spec fn spec_parse_workspace_from(
    es: Seq<(String, DocValue)>,
    acc: WorkspaceLayerV,
) -> Result<WorkspaceLayerV, Seq<char>>
    decreases es.len(),
{
    if es.len() == 0 {
        Ok(acc)
    } else {
        let k = es[0].0@;
        if k == "name"@ {
            match es[0].1 {
                DocValue::Str(s) => if acc.name is Some {
                    Err(k)
                } else {
                    spec_parse_workspace_from(es.skip(1), WorkspaceLayerV { name: Some(s@), ..acc })
                },
                _ => Err(k),
            }
        } else if k == "generate_index"@ {
            match es[0].1 {
                DocValue::Bool(b) => if acc.generate_index is Some {
                    Err(k)
                } else {
                    spec_parse_workspace_from(
                        es.skip(1),
                        WorkspaceLayerV { generate_index: Some(b), ..acc },
                    )
                },
                _ => Err(k),
            }
        } else if k == "auto"@ {
            match es[0].1 {
                DocValue::Bool(b) => if acc.auto is Some {
                    Err(k)
                } else {
                    spec_parse_workspace_from(es.skip(1), WorkspaceLayerV { auto: Some(b), ..acc })
                },
                _ => Err(k),
            }
        } else if k == "members"@ {
            match es[0].1 {
                DocValue::List(vs) => if acc.members is Some {
                    Err(k)
                } else {
                    match spec_parse_members(vs@) {
                        Ok(ms) => spec_parse_workspace_from(
                            es.skip(1),
                            WorkspaceLayerV { members: Some(ms), ..acc },
                        ),
                        Err(f) => Err(f),
                    }
                },
                _ => Err(k),
            }
        } else {
            Err(k)
        }
    }
}

pub open spec fn spec_parse_workspace(es: Seq<(String, DocValue)>) -> Result<
    WorkspaceLayerV,
    Seq<char>,
> {
    spec_parse_workspace_from(
        es,
        WorkspaceLayerV { name: None, generate_index: None, members: None, auto: None },
    )
}

/// Parse the `workspace` section.
pub fn parse_workspace_layer(es: &Vec<(String, DocValue)>) -> (r: Result<
    WorkspaceLayer,
    OrandaError,
>)
    ensures
        r matches Ok(l) ==> spec_parse_workspace(es@) == Ok::<_, Seq<char>>(l@),
        r matches Err(e) ==> (e matches OrandaError::ConfigParse { field }
            && spec_parse_workspace(es@) == Err::<WorkspaceLayerV, _>(field@)),
{
    let mut acc = WorkspaceLayer { name: None, generate_index: None, members: None, auto: None };
    let mut i: usize = 0;
    assert(es@.skip(0) =~= es@);
    while i < es.len()
        invariant
            i <= es@.len(),
            spec_parse_workspace_from(es@.skip(i as int), acc@) == spec_parse_workspace(es@),
        decreases es@.len() - i,
    {
        proof {
            assert(es@.skip(i as int)[0] == es@[i as int]);
            assert(es@.skip(i as int).skip(1) =~= es@.skip(i + 1));
        }
        let e = &es[i];
        let k = &e.0;
        if str_eq(k.as_str(), "name") {
            match &e.1 {
                DocValue::Str(s) => {
                    if acc.name.is_some() {
                        return Err(OrandaError::ConfigParse { field: k.clone() });
                    }
                    acc.name = Some(s.clone());
                },
                _ => {
                    return Err(OrandaError::ConfigParse { field: k.clone() });
                },
            }
        } else if str_eq(k.as_str(), "generate_index") {
            match &e.1 {
                DocValue::Bool(b) => {
                    if acc.generate_index.is_some() {
                        return Err(OrandaError::ConfigParse { field: k.clone() });
                    }
                    acc.generate_index = Some(*b);
                },
                _ => {
                    return Err(OrandaError::ConfigParse { field: k.clone() });
                },
            }
        } else if str_eq(k.as_str(), "auto") {
            match &e.1 {
                DocValue::Bool(b) => {
                    if acc.auto.is_some() {
                        return Err(OrandaError::ConfigParse { field: k.clone() });
                    }
                    acc.auto = Some(*b);
                },
                _ => {
                    return Err(OrandaError::ConfigParse { field: k.clone() });
                },
            }
        } else if str_eq(k.as_str(), "members") {
            match &e.1 {
                DocValue::List(vs) => {
                    if acc.members.is_some() {
                        return Err(OrandaError::ConfigParse { field: k.clone() });
                    }
                    match parse_members(vs) {
                        Ok(ms) => {
                            acc.members = Some(ms);
                        },
                        Err(err) => {
                            return Err(err);
                        },
                    }
                },
                _ => {
                    return Err(OrandaError::ConfigParse { field: k.clone() });
                },
            }
        } else {
            return Err(OrandaError::ConfigParse { field: k.clone() });
        }
        i = i + 1;
    }
    assert(es@.skip(es@.len() as int).len() == 0);
    Ok(acc)
}

// ---------------------------------------------------------------------------
// the whole document

/// The keys a configuration document knows at its top level.
pub open spec fn recognized_top_key(k: Seq<char>) -> bool {
    ||| k == "project"@
    ||| k == "build"@
    ||| k == "marketing"@
    ||| k == "styles"@
    ||| k == "components"@
    ||| k == "workspace"@
    ||| k == "$schema"@
}

/// The layer that sets nothing.
pub open spec fn oranda_layer_empty() -> OrandaLayerV {
    OrandaLayerV {
        project: None,
        build: None,
        marketing: None,
        styles: None,
        components: None,
        workspace: None,
        schema: None,
    }
}

/// Parse a whole configuration document's top-level entries: each section
/// a table, the schema marker a string; an unknown or repeated key fails
/// naming the key, and errors inside a section name the offending key
/// there.
pub open spec fn spec_parse_oranda_from(es: Seq<(String, DocValue)>, acc: OrandaLayerV) -> Result<
    OrandaLayerV,
    Seq<char>,
>
    decreases es.len(),
{
    if es.len() == 0 {
        Ok(acc)
    } else {
        let k = es[0].0@;
        if k == "project"@ {
            match es[0].1 {
                DocValue::Dict(pes) => if acc.project is Some {
                    Err(k)
                } else {
                    match spec_parse_project(pes@) {
                        Ok(l) => spec_parse_oranda_from(
                            es.skip(1),
                            OrandaLayerV { project: Some(l), ..acc },
                        ),
                        Err(f) => Err(f),
                    }
                },
                _ => Err(k),
            }
        } else if k == "build"@ {
            match es[0].1 {
                DocValue::Dict(pes) => if acc.build is Some {
                    Err(k)
                } else {
                    match spec_parse_build(pes@) {
                        Ok(l) => spec_parse_oranda_from(
                            es.skip(1),
                            OrandaLayerV { build: Some(l), ..acc },
                        ),
                        Err(f) => Err(f),
                    }
                },
                _ => Err(k),
            }
        } else if k == "marketing"@ {
            match es[0].1 {
                DocValue::Dict(pes) => if acc.marketing is Some {
                    Err(k)
                } else {
                    match spec_parse_marketing(pes@) {
                        Ok(l) => spec_parse_oranda_from(
                            es.skip(1),
                            OrandaLayerV { marketing: Some(l), ..acc },
                        ),
                        Err(f) => Err(f),
                    }
                },
                _ => Err(k),
            }
        } else if k == "styles"@ {
            match es[0].1 {
                DocValue::Dict(pes) => if acc.styles is Some {
                    Err(k)
                } else {
                    match spec_parse_styles(pes@) {
                        Ok(l) => spec_parse_oranda_from(
                            es.skip(1),
                            OrandaLayerV { styles: Some(l), ..acc },
                        ),
                        Err(f) => Err(f),
                    }
                },
                _ => Err(k),
            }
        } else if k == "components"@ {
            match es[0].1 {
                DocValue::Dict(pes) => if acc.components is Some {
                    Err(k)
                } else {
                    match spec_parse_components(pes@) {
                        Ok(l) => spec_parse_oranda_from(
                            es.skip(1),
                            OrandaLayerV { components: Some(l), ..acc },
                        ),
                        Err(f) => Err(f),
                    }
                },
                _ => Err(k),
            }
        } else if k == "workspace"@ {
            match es[0].1 {
                DocValue::Dict(pes) => if acc.workspace is Some {
                    Err(k)
                } else {
                    match spec_parse_workspace(pes@) {
                        Ok(l) => spec_parse_oranda_from(
                            es.skip(1),
                            OrandaLayerV { workspace: Some(l), ..acc },
                        ),
                        Err(f) => Err(f),
                    }
                },
                _ => Err(k),
            }
        } else if k == "$schema"@ {
            match es[0].1 {
                DocValue::Str(sv) => if acc.schema is Some {
                    Err(k)
                } else {
                    spec_parse_oranda_from(es.skip(1), OrandaLayerV { schema: Some(sv@), ..acc })
                },
                _ => Err(k),
            }
        } else {
            Err(k)
        }
    }
}

pub open spec fn spec_parse_oranda(es: Seq<(String, DocValue)>) -> Result<OrandaLayerV, Seq<char>> {
    spec_parse_oranda_from(es, oranda_layer_empty())
}

/// A document whose top level parses has no unrecognized keys there:
/// nothing is silently ignored, an unknown field is always an error.
pub proof fn lemma_parse_oranda_strict(es: Seq<(String, DocValue)>, acc: OrandaLayerV)
    ensures
        spec_parse_oranda_from(es, acc) is Ok ==> forall|i: int|
            0 <= i < es.len() ==> recognized_top_key(#[trigger] es[i].0@),
    decreases es.len(),
{
    if es.len() != 0 && spec_parse_oranda_from(es, acc) is Ok {
        let k = es[0].0@;
        if k == "project"@ {
            if let DocValue::Dict(pes) = es[0].1 {
                if let Ok(l) = spec_parse_project(pes@) {
                    lemma_parse_oranda_strict(es.skip(1), OrandaLayerV { project: Some(l), ..acc });
                }
            }
        } else if k == "build"@ {
            if let DocValue::Dict(pes) = es[0].1 {
                if let Ok(l) = spec_parse_build(pes@) {
                    lemma_parse_oranda_strict(es.skip(1), OrandaLayerV { build: Some(l), ..acc });
                }
            }
        } else if k == "marketing"@ {
            if let DocValue::Dict(pes) = es[0].1 {
                if let Ok(l) = spec_parse_marketing(pes@) {
                    lemma_parse_oranda_strict(
                        es.skip(1),
                        OrandaLayerV { marketing: Some(l), ..acc },
                    );
                }
            }
        } else if k == "styles"@ {
            if let DocValue::Dict(pes) = es[0].1 {
                if let Ok(l) = spec_parse_styles(pes@) {
                    lemma_parse_oranda_strict(es.skip(1), OrandaLayerV { styles: Some(l), ..acc });
                }
            }
        } else if k == "components"@ {
            if let DocValue::Dict(pes) = es[0].1 {
                if let Ok(l) = spec_parse_components(pes@) {
                    lemma_parse_oranda_strict(
                        es.skip(1),
                        OrandaLayerV { components: Some(l), ..acc },
                    );
                }
            }
        } else if k == "workspace"@ {
            if let DocValue::Dict(pes) = es[0].1 {
                if let Ok(l) = spec_parse_workspace(pes@) {
                    lemma_parse_oranda_strict(
                        es.skip(1),
                        OrandaLayerV { workspace: Some(l), ..acc },
                    );
                }
            }
        } else if k == "$schema"@ {
            if let DocValue::Str(sv) = es[0].1 {
                lemma_parse_oranda_strict(es.skip(1), OrandaLayerV { schema: Some(sv@), ..acc });
            }
        }
        assert forall|i: int| 0 <= i < es.len() implies recognized_top_key(
            #[trigger] es[i].0@,
        ) by {
            if i > 0 {
                assert(es.skip(1)[i - 1] == es[i]);
            }
        }
    }
}

/// What parsing a whole document yields: its top level must be a
/// dictionary.
pub open spec fn spec_parse_oranda_doc(doc: DocValue) -> Result<OrandaLayerV, Seq<char>> {
    match doc {
        DocValue::Dict(es) => spec_parse_oranda(es@),
        _ => Err("document"@),
    }
}

/// Parse a whole configuration document into a layer, strictly: an
/// unknown, repeated or ill-shaped field anywhere is an error naming the
/// offending key.
pub fn parse_oranda_layer(doc: &DocValue) -> (r: Result<OrandaLayer, OrandaError>)
    ensures
        r matches Ok(l) ==> spec_parse_oranda_doc(*doc) == Ok::<_, Seq<char>>(l@),
        r matches Err(e) ==> (e matches OrandaError::ConfigParse { field }
            && spec_parse_oranda_doc(*doc) == Err::<OrandaLayerV, _>(field@)),
        r is Ok <==> spec_parse_oranda_doc(*doc) is Ok,
{
    let es = match doc {
        DocValue::Dict(es) => es,
        _ => {
            return Err(OrandaError::ConfigParse { field: "document".to_owned() });
        },
    };
    let mut acc = OrandaLayer {
        project: None,
        build: None,
        marketing: None,
        styles: None,
        components: None,
        workspace: None,
        schema: None,
    };
    let mut i: usize = 0;
    assert((*doc) matches DocValue::Dict(d) && d@ == es@);
    assert(es@.skip(0) =~= es@);
    while i < es.len()
        invariant
            i <= es@.len(),
            (*doc) matches DocValue::Dict(d) && d@ == es@,
            spec_parse_oranda_from(es@.skip(i as int), acc@) == spec_parse_oranda(es@),
        decreases es@.len() - i,
    {
        proof {
            assert(es@.skip(i as int)[0] == es@[i as int]);
            assert(es@.skip(i as int).skip(1) =~= es@.skip(i + 1));
        }
        let e = &es[i];
        let k = &e.0;
        if str_eq(k.as_str(), "project") {
            match &e.1 {
                DocValue::Dict(pes) => {
                    if acc.project.is_some() {
                        return Err(OrandaError::ConfigParse { field: k.clone() });
                    }
                    match parse_project_layer(pes) {
                        Ok(l) => {
                            acc.project = Some(l);
                        },
                        Err(err) => {
                            return Err(err);
                        },
                    }
                },
                _ => {
                    return Err(OrandaError::ConfigParse { field: k.clone() });
                },
            }
        } else if str_eq(k.as_str(), "build") {
            match &e.1 {
                DocValue::Dict(pes) => {
                    if acc.build.is_some() {
                        return Err(OrandaError::ConfigParse { field: k.clone() });
                    }
                    match parse_build_layer(pes) {
                        Ok(l) => {
                            acc.build = Some(l);
                        },
                        Err(err) => {
                            return Err(err);
                        },
                    }
                },
                _ => {
                    return Err(OrandaError::ConfigParse { field: k.clone() });
                },
            }
        } else if str_eq(k.as_str(), "marketing") {
            match &e.1 {
                DocValue::Dict(pes) => {
                    if acc.marketing.is_some() {
                        return Err(OrandaError::ConfigParse { field: k.clone() });
                    }
                    match parse_marketing_layer(pes) {
                        Ok(l) => {
                            acc.marketing = Some(l);
                        },
                        Err(err) => {
                            return Err(err);
                        },
                    }
                },
                _ => {
                    return Err(OrandaError::ConfigParse { field: k.clone() });
                },
            }
        } else if str_eq(k.as_str(), "styles") {
            match &e.1 {
                DocValue::Dict(pes) => {
                    if acc.styles.is_some() {
                        return Err(OrandaError::ConfigParse { field: k.clone() });
                    }
                    match parse_styles_layer(pes) {
                        Ok(l) => {
                            acc.styles = Some(l);
                        },
                        Err(err) => {
                            return Err(err);
                        },
                    }
                },
                _ => {
                    return Err(OrandaError::ConfigParse { field: k.clone() });
                },
            }
        } else if str_eq(k.as_str(), "components") {
            match &e.1 {
                DocValue::Dict(pes) => {
                    if acc.components.is_some() {
                        return Err(OrandaError::ConfigParse { field: k.clone() });
                    }
                    match parse_components_layer(pes) {
                        Ok(l) => {
                            acc.components = Some(l);
                        },
                        Err(err) => {
                            return Err(err);
                        },
                    }
                },
                _ => {
                    return Err(OrandaError::ConfigParse { field: k.clone() });
                },
            }
        } else if str_eq(k.as_str(), "workspace") {
            match &e.1 {
                DocValue::Dict(pes) => {
                    if acc.workspace.is_some() {
                        return Err(OrandaError::ConfigParse { field: k.clone() });
                    }
                    match parse_workspace_layer(pes) {
                        Ok(l) => {
                            acc.workspace = Some(l);
                        },
                        Err(err) => {
                            return Err(err);
                        },
                    }
                },
                _ => {
                    return Err(OrandaError::ConfigParse { field: k.clone() });
                },
            }
        } else if str_eq(k.as_str(), "$schema") {
            match &e.1 {
                DocValue::Str(sv) => {
                    if acc.schema.is_some() {
                        return Err(OrandaError::ConfigParse { field: k.clone() });
                    }
                    acc.schema = Some(sv.clone());
                },
                _ => {
                    return Err(OrandaError::ConfigParse { field: k.clone() });
                },
            }
        } else {
            return Err(OrandaError::ConfigParse { field: k.clone() });
        }
        i = i + 1;
    }
    assert(es@.skip(es@.len() as int).len() == 0);
    Ok(acc)
}

} // verus!
