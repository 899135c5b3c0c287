//! Build orchestration decisions: what a single-project build must do, how
//! a member's output location is named, and when a workspace run may
//! generate the aggregate index.

use vstd::prelude::*;

verus! {

use crate::config::OrandaConfig;
use crate::mdbook::{plan_mdbook, MdBookPlan};
use crate::sections::SyntaxTheme;
use crate::state::{spec_record, WorkspaceState};
use crate::text::opt_view;
use crate::workspace::{has_member_slug, WorkspaceMember};
use vstd::string::StringExecFns;

/// A fresh copy of an optional string.
fn clone_opt_string(o: &Option<String>) -> (r: Option<String>)
    ensures
        r == *o,
{
    match o {
        Some(s) => Some(s.clone()),
        None => None,
    }
}

/// Everything a single-project build does, decided up front from the
/// resolved configuration: where output goes, which static content comes
/// along, and which optional components run. A failing component fails
/// the whole build — there is no degraded output.
pub struct BuildPlan {
    /// Where output is written (created or cleaned first).
    pub dist_dir: String,
    /// The directory of extra static content to copy in.
    pub static_dir: String,
    /// The book build, when that component is on.
    pub mdbook: Option<MdBookPlan>,
    /// The funding file to read, when the funding component is on.
    pub funding_yml: Option<String>,
    /// The funding page source to render, when the funding component is on.
    pub funding_md: Option<String>,
    /// The syntax theme every renderer uses.
    pub syntax_theme: SyntaxTheme,
}

/// Decide a single-project build from its resolved configuration.
pub fn plan_build(cfg: &OrandaConfig) -> (r: BuildPlan)
    ensures
        r.dist_dir@ == cfg@.build.dist_dir,
        r.static_dir@ == cfg@.build.static_dir,
        r.mdbook is Some <==> cfg@.components.mdbook is Some,
        r.mdbook matches Some(p) ==> cfg@.components.mdbook matches Some(mb) && p.book_dir@
            == mb.path && p.inject_theme == (mb.theme is None || mb.theme == Some(true))
            && p.book_dist@ == cfg@.build.dist_dir + "/book"@,
        (match cfg@.components.funding {
            Some(f) => opt_view(r.funding_yml) == f.yml_path && opt_view(r.funding_md)
                == f.md_path,
            None => r.funding_yml is None && r.funding_md is None,
        }),
        r.syntax_theme == cfg@.styles.syntax_theme,
{
    let mdbook = match &cfg.components.mdbook {
        Some(mb) => Some(plan_mdbook(mb, &cfg.build.dist_dir)),
        None => None,
    };
    let (funding_yml, funding_md) = match &cfg.components.funding {
        Some(f) => (clone_opt_string(&f.yml_path), clone_opt_string(&f.md_path)),
        None => (None, None),
    };
    BuildPlan {
        dist_dir: cfg.build.dist_dir.clone(),
        static_dir: cfg.build.static_dir.clone(),
        mdbook,
        funding_yml,
        funding_md,
        syntax_theme: cfg.styles.syntax_theme(),
    }
}

/// The output directory of one workspace member: its slug's subdirectory
/// of the workspace's output root.
pub fn member_dist_dir(dist_root: &String, slug: &String) -> (r: String)
    ensures
        r@ == dist_root@ + "/"@ + slug@,
{
    dist_root.clone().concat("/").concat(slug.as_str())
}

/// The path prefix a member's pages are published under: the member's own
/// prefix when its configuration set one, its slug otherwise — so that no
/// two members land on the site root at once.
pub fn effective_path_prefix(path_prefix: &Option<String>, slug: &String) -> (r: String)
    ensures
        r@ == (match opt_view(*path_prefix) {
            Some(p) => p,
            None => slug@,
        }),
{
    match path_prefix {
        Some(p) => p.clone(),
        None => slug.clone(),
    }
}

/// One line of the aggregate index: a member, by slug, and the prefix its
/// pages live under.
pub struct IndexEntry {
    pub slug: String,
    pub prefix: String,
}

pub ghost struct IndexEntryV {
    pub slug: Seq<char>,
    pub prefix: Seq<char>,
}

impl View for IndexEntry {
    type V = IndexEntryV;

    open spec fn view(&self) -> IndexEntryV {
        IndexEntryV { slug: self.slug@, prefix: self.prefix@ }
    }
}

/// The views of an entry list, in order.
pub open spec fn entries_view(es: Seq<IndexEntry>) -> Seq<IndexEntryV> {
    es.map_values(|e: IndexEntry| e@)
}

/// One index line: the member's slug, linked under its prefix. Slugs and
/// prefixes are inserted verbatim.
pub open spec fn spec_index_item(e: IndexEntryV) -> Seq<char> {
    "<li><a href=\""@ + e.prefix + "\">"@ + e.slug + "</a></li>"@
}

/// The index lines of all entries, in order.
pub open spec fn spec_index_items(es: Seq<IndexEntryV>) -> Seq<char>
    decreases es.len(),
{
    if es.len() == 0 {
        Seq::empty()
    } else {
        spec_index_items(es.drop_last()) + spec_index_item(es.last())
    }
}

/// The whole aggregate index page.
pub open spec fn spec_index_html(es: Seq<IndexEntryV>) -> Seq<char> {
    "<!DOCTYPE html><html><body><ul>"@ + spec_index_items(es) + "</ul></body></html>"@
}

/// Render the aggregate index page: every entry, in order, as a link to
/// its prefix.
pub fn render_index(entries: &Vec<IndexEntry>) -> (r: String)
    ensures
        r@ == spec_index_html(entries_view(entries@)),
{
    let mut html = String::from_str("<!DOCTYPE html><html><body><ul>");
    let mut i: usize = 0;
    assert(entries_view(entries@).subrange(0, 0) =~= Seq::<IndexEntryV>::empty());
    while i < entries.len()
        invariant
            i <= entries@.len(),
            html@ == "<!DOCTYPE html><html><body><ul>"@ + spec_index_items(
                entries_view(entries@).subrange(0, i as int),
            ),
        decreases entries@.len() - i,
    {
        let e = &entries[i];
        html.append("<li><a href=\"");
        html.append(e.prefix.as_str());
        html.append("\">");
        html.append(e.slug.as_str());
        html.append("</a></li>");
        proof {
            let ev = entries_view(entries@);
            assert(ev.subrange(0, i + 1).drop_last() =~= ev.subrange(0, i as int));
            assert(ev.subrange(0, i + 1).last() == ev[i as int]);
            assert(html@ =~= "<!DOCTYPE html><html><body><ul>"@ + spec_index_items(
                ev.subrange(0, i + 1),
            ));
        }
        i = i + 1;
    }
    assert(entries_view(entries@).subrange(0, entries@.len() as int) =~= entries_view(entries@));
    html.append("</ul></body></html>");
    proof {
        assert(html@ =~= spec_index_html(entries_view(entries@)));
    }
    html
}

/// The aggregate index's entries: every member, in order, linked under
/// `<slug>/`.
pub fn index_entries(members: &Vec<WorkspaceMember>) -> (r: Vec<IndexEntry>)
    ensures
        r@.len() == members@.len(),
        forall|i: int|
            0 <= i < r@.len() ==> (#[trigger] r@[i]).slug@ == members@[i]@.slug && r@[i].prefix@
                == members@[i]@.slug + "/"@,
{
    let mut out: Vec<IndexEntry> = Vec::new();
    let mut i: usize = 0;
    while i < members.len()
        invariant
            i <= members@.len(),
            out@.len() == i,
            forall|j: int|
                0 <= j < i ==> (#[trigger] out@[j]).slug@ == members@[j]@.slug && out@[j].prefix@
                    == members@[j]@.slug + "/"@,
        decreases members@.len() - i,
    {
        let m = &members[i];
        out.push(IndexEntry { slug: m.slug.clone(), prefix: m.slug.clone().concat("/") });
        i = i + 1;
    }
    out
}

/// What a workspace run does right after one member's build: record the
/// member as built, then — under the same lock — ask whether every
/// required member is now present. The answer is `true`, and the aggregate
/// index is to be generated, exactly when index generation is enabled and
/// the required set is complete; two racing "last" members cannot both see
/// an incomplete set.
pub fn member_built(
    state: &mut WorkspaceState,
    member: WorkspaceMember,
    required_slugs: &Vec<String>,
    generate_index: bool,
) -> (emit_index: bool)
    ensures
        final(state)@ == spec_record(old(state)@, member@),
        emit_index == (generate_index && (forall|i: int|
            0 <= i < required_slugs@.len() ==> has_member_slug(
                final(state)@,
                #[trigger] required_slugs@[i]@,
            ))),
{
    state.record_member(member);
    let complete = state.is_complete(required_slugs);
    generate_index && complete
}

} // verus!
