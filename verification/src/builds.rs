//! The `build` configuration section: where output goes and which extra
//! pages the site carries.

use vstd::prelude::*;

verus! {

use crate::layer::{apply_opt, apply_val, spec_apply_opt, spec_apply_val, ApplyLayer};
use crate::ordered_map::{map_entries, map_entry_list, map_new, opt_map_view};
use crate::text::opt_view;

/// Information about how the pages should be built (complete version).
pub struct BuildConfig {
    /// Relative path to the dir where build output should be placed.
    pub dist_dir: String,
    /// Relative path to a dir full of extra static content.
    pub static_dir: String,
    /// A path fragment to prepend before URLs.
    pub path_prefix: Option<String>,
    /// Additional pages for the top-level nav, label to page path, in the
    /// order the user gave them.
    pub additional_pages: indexmap::IndexMap<String, String>,
}

/// Information about how the pages should be built, as one source wants to
/// override it (every field optional).
pub struct BuildLayer {
    /// Relative path to the dir where build output should be placed.
    pub dist_dir: Option<String>,
    /// Relative path to a dir full of extra static content.
    pub static_dir: Option<String>,
    /// A path fragment to prepend before URLs.
    pub path_prefix: Option<String>,
    /// Additional pages for the top-level nav. A layer that sets this
    /// replaces the whole map; merging entry by entry is a possible future
    /// change, not what happens today.
    pub additional_pages: Option<indexmap::IndexMap<String, String>>,
}

pub ghost struct BuildConfigV {
    pub dist_dir: Seq<char>,
    pub static_dir: Seq<char>,
    pub path_prefix: Option<Seq<char>>,
    pub additional_pages: Seq<(Seq<char>, Seq<char>)>,
}

pub ghost struct BuildLayerV {
    pub dist_dir: Option<Seq<char>>,
    pub static_dir: Option<Seq<char>>,
    pub path_prefix: Option<Seq<char>>,
    pub additional_pages: Option<Seq<(Seq<char>, Seq<char>)>>,
}

impl View for BuildConfig {
    type V = BuildConfigV;

    open spec fn view(&self) -> BuildConfigV {
        BuildConfigV {
            dist_dir: self.dist_dir@,
            static_dir: self.static_dir@,
            path_prefix: opt_view(self.path_prefix),
            additional_pages: map_entries(self.additional_pages),
        }
    }
}

impl View for BuildLayer {
    type V = BuildLayerV;

    open spec fn view(&self) -> BuildLayerV {
        BuildLayerV {
            dist_dir: opt_view(self.dist_dir),
            static_dir: opt_view(self.static_dir),
            path_prefix: opt_view(self.path_prefix),
            additional_pages: opt_map_view(self.additional_pages),
        }
    }
}

/// The built-in defaults of the `build` section.
pub open spec fn build_default() -> BuildConfigV {
    BuildConfigV {
        dist_dir: "public"@,
        static_dir: "static"@,
        path_prefix: None,
        additional_pages: Seq::empty(),
    }
}

/// Field-by-field merge of a `build` layer, at the level of views.
pub open spec fn apply_build(c: BuildConfigV, l: BuildLayerV) -> BuildConfigV {
    BuildConfigV {
        dist_dir: spec_apply_val(c.dist_dir, l.dist_dir),
        static_dir: spec_apply_val(c.static_dir, l.static_dir),
        path_prefix: spec_apply_opt(c.path_prefix, l.path_prefix),
        additional_pages: spec_apply_val(c.additional_pages, l.additional_pages),
    }
}

impl Default for BuildConfig {
    /// The built-in defaults: output under "public", static content under
    /// "static", no prefix, no extra pages.
    fn default() -> (r: Self)
        ensures
            r@ == build_default(),
    {
        BuildConfig {
            dist_dir: "public".to_owned(),
            static_dir: "static".to_owned(),
            path_prefix: None,
            additional_pages: map_new(),
        }
    }
}

impl ApplyLayer for BuildConfig {
    type Layer = BuildLayer;

    open spec fn spec_apply(self, layer: BuildLayer) -> BuildConfig {
        BuildConfig {
            dist_dir: spec_apply_val(self.dist_dir, layer.dist_dir),
            static_dir: spec_apply_val(self.static_dir, layer.static_dir),
            path_prefix: spec_apply_opt(self.path_prefix, layer.path_prefix),
            additional_pages: spec_apply_val(self.additional_pages, layer.additional_pages),
        }
    }

    fn apply_layer(&mut self, layer: BuildLayer) {
        // Destructured on purpose: a field added to the layer must be
        // handled here before this compiles again.
        let BuildLayer { dist_dir, static_dir, path_prefix, additional_pages } = layer;
        apply_val(&mut self.dist_dir, dist_dir);
        apply_val(&mut self.static_dir, static_dir);
        apply_opt(&mut self.path_prefix, path_prefix);
        // A layer that sets the map replaces it whole; this might want to
        // become `extend` one day.
        apply_val(&mut self.additional_pages, additional_pages);
    }
}

/// Merging layers commutes with taking views: the view of the merged value
/// is the field-by-field merge of the views.
pub proof fn lemma_apply_build_view(c: BuildConfig, l: BuildLayer)
    ensures
        c.spec_apply(l)@ == apply_build(c@, l@),
{
}

impl BuildConfig {
    /// The additional pages, in order, as plain label/path pairs.
    pub fn additional_pages_list(&self) -> (r: Vec<(String, String)>)
        ensures
            r@.len() == self@.additional_pages.len(),
            forall|i: int|
                0 <= i < r@.len() ==> r@[i].0@ == self@.additional_pages[i].0 && r@[i].1@
                    == self@.additional_pages[i].1,
    {
        map_entry_list(&self.additional_pages)
    }
}

} // verus!
