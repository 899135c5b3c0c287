//! The workspace model: a named collection of member projects published
//! together, and the resolution of the definitive member list.

use vstd::prelude::*;

verus! {

use crate::errors::OrandaError;
use crate::layer::{apply_opt, apply_val, spec_apply_opt, spec_apply_val, ApplyLayer};
use crate::text::{opt_view, str_compare_le, str_eq, str_le, lemma_lex_le_total};
use vstd::utf8::encode_utf8;

/// One project participating in a workspace: a unique slug naming its
/// output subdirectory, and its directory relative to the workspace root.
pub struct WorkspaceMember {
    pub slug: String,
    pub path: String,
}

pub ghost struct WorkspaceMemberV {
    pub slug: Seq<char>,
    pub path: Seq<char>,
}

impl View for WorkspaceMember {
    type V = WorkspaceMemberV;

    open spec fn view(&self) -> WorkspaceMemberV {
        WorkspaceMemberV { slug: self.slug@, path: self.path@ }
    }
}

impl WorkspaceMember {
    /// A fresh member with the same slug and path.
    pub fn duplicate(&self) -> (r: WorkspaceMember)
        ensures
            r@ == self@,
    {
        WorkspaceMember { slug: self.slug.clone(), path: self.path.clone() }
    }
}

/// The views of a member list, in order.
pub open spec fn members_view(ms: Seq<WorkspaceMember>) -> Seq<WorkspaceMemberV> {
    ms.map_values(|m: WorkspaceMember| m@)
}

/// No two members share a slug.
pub open spec fn unique_slugs(ms: Seq<WorkspaceMemberV>) -> bool {
    forall|i: int, j: int| 0 <= i < j < ms.len() ==> ms[i].slug != ms[j].slug
}

/// The slug `sl` occurs in two different places.
pub open spec fn duplicated_slug(ms: Seq<WorkspaceMemberV>, sl: Seq<char>) -> bool {
    exists|i: int, j: int|
        0 <= i < j < ms.len() && ms[i].slug == sl && ms[j].slug == sl
}

/// Some member has path `p`.
pub open spec fn has_member_path(ms: Seq<WorkspaceMemberV>, p: Seq<char>) -> bool {
    exists|i: int| 0 <= i < ms.len() && ms[i].path == p
}

/// Some member has slug `sl`.
pub open spec fn has_member_slug(ms: Seq<WorkspaceMemberV>, sl: Seq<char>) -> bool {
    exists|i: int| 0 <= i < ms.len() && ms[i].slug == sl
}

/// The members are ordered by path.
pub open spec fn sorted_by_path(ms: Seq<WorkspaceMemberV>) -> bool {
    forall|i: int, j: int| 0 <= i < j < ms.len() ==> str_le(ms[i].path, ms[j].path)
}

/// Whether a member's path is new relative to the explicitly listed ones.
pub open spec fn new_member_pred(explicit: Seq<WorkspaceMemberV>) -> spec_fn(
    WorkspaceMemberV,
) -> bool {
    |m: WorkspaceMemberV| !has_member_path(explicit, m.path)
}

/// The member list that resolution considers: the explicit members, then —
/// with auto-discovery on — every discovered member whose path none of the
/// explicit ones already has, in discovery order.
pub open spec fn candidate_members(
    explicit: Seq<WorkspaceMemberV>,
    disc: Seq<WorkspaceMemberV>,
    auto: bool,
) -> Seq<WorkspaceMemberV> {
    explicit + if auto {
        disc.filter(new_member_pred(explicit))
    } else {
        Seq::empty()
    }
}

// ---------------------------------------------------------------------------
// the workspace section

/// The `workspace` section (complete version).
pub struct WorkspaceConfig {
    /// The workspace's display name.
    pub name: Option<String>,
    /// Whether the aggregate index page is generated once every member is
    /// built.
    pub generate_index: bool,
    /// Whether member projects are auto-discovered under the root.
    pub auto: bool,
    /// The explicitly listed members, in order.
    pub members: Vec<WorkspaceMember>,
}

/// The `workspace` section, as one source wants to override it.
pub struct WorkspaceLayer {
    pub name: Option<String>,
    pub generate_index: Option<bool>,
    pub members: Option<Vec<WorkspaceMember>>,
    pub auto: Option<bool>,
}

pub ghost struct WorkspaceConfigV {
    pub name: Option<Seq<char>>,
    pub generate_index: bool,
    pub auto: bool,
    pub members: Seq<WorkspaceMemberV>,
}

pub ghost struct WorkspaceLayerV {
    pub name: Option<Seq<char>>,
    pub generate_index: Option<bool>,
    pub members: Option<Seq<WorkspaceMemberV>>,
    pub auto: Option<bool>,
}

impl View for WorkspaceConfig {
    type V = WorkspaceConfigV;

    open spec fn view(&self) -> WorkspaceConfigV {
        WorkspaceConfigV {
            name: opt_view(self.name),
            generate_index: self.generate_index,
            auto: self.auto,
            members: members_view(self.members@),
        }
    }
}

impl View for WorkspaceLayer {
    type V = WorkspaceLayerV;

    open spec fn view(&self) -> WorkspaceLayerV {
        WorkspaceLayerV {
            name: opt_view(self.name),
            generate_index: self.generate_index,
            members: match self.members {
                Some(ms) => Some(members_view(ms@)),
                None => None,
            },
            auto: self.auto,
        }
    }
}

/// The built-in defaults of the `workspace` section: unnamed, index
/// generation on, auto-discovery off, no members.
pub open spec fn workspace_default() -> WorkspaceConfigV {
    WorkspaceConfigV { name: None, generate_index: true, auto: false, members: Seq::empty() }
}

/// Field-by-field merge of a `workspace` layer, at the level of views. A
/// layer that sets `members` replaces the whole list.
pub open spec fn apply_workspace(c: WorkspaceConfigV, l: WorkspaceLayerV) -> WorkspaceConfigV {
    WorkspaceConfigV {
        name: spec_apply_opt(c.name, l.name),
        generate_index: spec_apply_val(c.generate_index, l.generate_index),
        auto: spec_apply_val(c.auto, l.auto),
        members: spec_apply_val(c.members, l.members),
    }
}

impl Default for WorkspaceConfig {
    fn default() -> (r: Self)
        ensures
            r@ == workspace_default(),
    {
        let members: Vec<WorkspaceMember> = Vec::new();
        proof {
            assert(members_view(members@) =~= Seq::<WorkspaceMemberV>::empty());
        }
        WorkspaceConfig { name: None, generate_index: true, auto: false, members }
    }
}

impl ApplyLayer for WorkspaceConfig {
    type Layer = WorkspaceLayer;

    open spec fn spec_apply(self, layer: WorkspaceLayer) -> WorkspaceConfig {
        WorkspaceConfig {
            name: spec_apply_opt(self.name, layer.name),
            generate_index: spec_apply_val(self.generate_index, layer.generate_index),
            auto: spec_apply_val(self.auto, layer.auto),
            members: spec_apply_val(self.members, layer.members),
        }
    }

    fn apply_layer(&mut self, layer: WorkspaceLayer) {
        let WorkspaceLayer { name, generate_index, members, auto } = layer;
        apply_opt(&mut self.name, name);
        apply_val(&mut self.generate_index, generate_index);
        apply_val(&mut self.members, members);
        apply_val(&mut self.auto, auto);
    }
}

/// Merging layers commutes with taking views.
pub proof fn lemma_apply_workspace_view(c: WorkspaceConfig, l: WorkspaceLayer)
    ensures
        c.spec_apply(l)@ == apply_workspace(c@, l@),
{
}

// ---------------------------------------------------------------------------
// member resolution

/// `str_le` is total.
pub proof fn lemma_str_le_total(a: Seq<char>, b: Seq<char>)
    ensures
        str_le(a, b) || str_le(b, a),
{
    lemma_lex_le_total(encode_utf8(a), encode_utf8(b));
}

/// Whether some member of `ms` has path `p`.
fn path_listed(ms: &Vec<WorkspaceMember>, p: &str) -> (r: bool)
    ensures
        r == has_member_path(members_view(ms@), p@),
{
    let mut i: usize = 0;
    while i < ms.len()
        invariant
            i <= ms@.len(),
            forall|j: int| 0 <= j < i ==> members_view(ms@)[j].path != p@,
        decreases ms@.len() - i,
    {
        if str_eq(ms[i].path.as_str(), p) {
            assert(members_view(ms@)[i as int].path == p@);
            return true;
        }
        i = i + 1;
    }
    false
}

/// A fresh list with the same members.
pub fn duplicate_members(ms: &Vec<WorkspaceMember>) -> (r: Vec<WorkspaceMember>)
    ensures
        members_view(r@) == members_view(ms@),
{
    let mut out: Vec<WorkspaceMember> = Vec::new();
    let mut i: usize = 0;
    while i < ms.len()
        invariant
            i <= ms@.len(),
            out@.len() == i,
            forall|j: int| 0 <= j < i ==> (#[trigger] out@[j])@ == ms@[j]@,
        decreases ms@.len() - i,
    {
        out.push(ms[i].duplicate());
        i = i + 1;
    }
    proof {
        assert(members_view(out@) =~= members_view(ms@));
    }
    out
}

/// The slug of some member that another member shares, if any.
pub(crate) fn find_duplicate_slug(ms: &Vec<WorkspaceMember>) -> (r: Option<String>)
    ensures
        r is None <==> unique_slugs(members_view(ms@)),
        r matches Some(s) ==> duplicated_slug(members_view(ms@), s@),
{
    let mut j: usize = 1;
    while j < ms.len()
        invariant
            1 <= j,
            forall|a: int, b: int|
                0 <= a < b < j && b < ms@.len() ==> members_view(ms@)[a].slug != members_view(
                    ms@,
                )[b].slug,
        decreases ms@.len() - j,
    {
        let mut i: usize = 0;
        while i < j
            invariant
                i <= j < ms@.len(),
                forall|a: int| 0 <= a < i ==> members_view(ms@)[a].slug != members_view(ms@)[j as int].slug,
            decreases j - i,
    {
            if str_eq(ms[i].slug.as_str(), ms[j].slug.as_str()) {
                proof {
                    let iv = i as int;
                    let jv = j as int;
                    assert(members_view(ms@)[iv].slug == ms@[iv].slug@);
                    assert(members_view(ms@)[jv].slug == ms@[jv].slug@);
                    assert(duplicated_slug(members_view(ms@), ms@[jv].slug@));
                }
                return Some(ms[j].slug.clone());
            }
            i = i + 1;
        }
        j = j + 1;
    }
    None
}

/// Where `m` belongs in the path-ordered list: the first index whose path
/// is not below `m`'s.
fn find_insert_pos(out: &Vec<WorkspaceMember>, m: &WorkspaceMember) -> (k: usize)
    ensures
        k <= out@.len(),
        forall|j: int| 0 <= j < k ==> !str_le(m@.path, members_view(out@)[j].path),
        k < out@.len() ==> str_le(m@.path, members_view(out@)[k as int].path),
{
    let mut k: usize = 0;
    while k < out.len()
        invariant
            k <= out@.len(),
            forall|j: int| 0 <= j < k ==> !str_le(m@.path, members_view(out@)[j].path),
        decreases out@.len() - k,
    {
        if str_compare_le(m.path.as_str(), out[k].path.as_str()) {
            return k;
        }
        k = k + 1;
    }
    k
}

/// Inserting at `k` keeps exactly the old elements plus the new one.
proof fn lemma_insert_contains(s: Seq<WorkspaceMemberV>, k: int, m: WorkspaceMemberV)
    requires
        0 <= k <= s.len(),
    ensures
        forall|x: WorkspaceMemberV| #[trigger]
            s.insert(k, m).contains(x) <==> (s.contains(x) || x == m),
{
    s.insert_ensures(k, m);
    assert forall|x: WorkspaceMemberV| #[trigger] s.insert(k, m).contains(x) implies (s.contains(x)
        || x == m) by {
        let i = choose|i: int| 0 <= i < s.insert(k, m).len() && s.insert(k, m)[i] == x;
        if i < k {
            assert(s[i] == x);
        } else if i > k {
            assert(s[i - 1] == x);
        }
    }
    assert forall|x: WorkspaceMemberV| (s.contains(x) || x == m) implies #[trigger] s.insert(
        k,
        m,
    ).contains(x) by {
        if x == m {
            assert(s.insert(k, m)[k] == m);
        } else {
            let i = choose|i: int| 0 <= i < s.len() && s[i] == x;
            if i < k {
                assert(s.insert(k, m)[i] == x);
            } else {
                assert(s.insert(k, m)[i + 1] == x);
            }
        }
    }
}

/// Views commute with insertion.
proof fn lemma_members_view_insert(s: Seq<WorkspaceMember>, k: int, m: WorkspaceMember)
    requires
        0 <= k <= s.len(),
    ensures
        members_view(s.insert(k, m)) =~= members_view(s).insert(k, m@),
{
    s.insert_ensures(k, m);
    members_view(s).insert_ensures(k, m@);
}

/// Insert `m` into a path-ordered list, keeping it ordered.
fn insert_member_sorted(out: &mut Vec<WorkspaceMember>, m: WorkspaceMember)
    requires
        sorted_by_path(members_view(old(out)@)),
    ensures
        sorted_by_path(members_view(final(out)@)),
        members_view(final(out)@).len() == members_view(old(out)@).len() + 1,
        forall|x: WorkspaceMemberV| #[trigger]
            members_view(final(out)@).contains(x) <==> (members_view(old(out)@).contains(x) || x
                == m@),
{
    let ghost oldv = members_view(out@);
    let k = find_insert_pos(out, &m);
    let ghost mv = m@;
    out.insert(k, m);
    proof {
        lemma_members_view_insert(old(out)@, k as int, m);
        lemma_insert_contains(oldv, k as int, mv);
        oldv.insert_ensures(k as int, mv);
        let newv = members_view(out@);
        assert forall|i: int, j: int| 0 <= i < j < newv.len() implies str_le(
            newv[i].path,
            newv[j].path,
        ) by {
            if j < k {
                assert(newv[i] == oldv[i] && newv[j] == oldv[j]);
            } else if i > k {
                assert(newv[i] == oldv[i - 1] && newv[j] == oldv[j - 1]);
            } else if i < k && j == k {
                lemma_str_le_total(mv.path, oldv[i].path);
                assert(newv[i] == oldv[i]);
            } else if i < k && j > k {
                assert(newv[i] == oldv[i] && newv[j] == oldv[j - 1]);
            } else if i == k && j > k {
                assert(newv[j] == oldv[j - 1]);
                if k < oldv.len() {
                    if j - 1 == k {
                        assert(str_le(mv.path, oldv[k as int].path));
                    } else {
                        assert(str_le(oldv[k as int].path, oldv[j - 1].path));
                        lemma_str_le_total(mv.path, oldv[k as int].path);
                        lemma_lex_le_trans(
                            encode_utf8(mv.path),
                            encode_utf8(oldv[k as int].path),
                            encode_utf8(oldv[j - 1].path),
                        );
                    }
                }
            }
        }
    }
}

/// `lex_le` is transitive.
proof fn lemma_lex_le_trans(a: Seq<u8>, b: Seq<u8>, c: Seq<u8>)
    requires
        crate::text::lex_le(a, b),
        crate::text::lex_le(b, c),
    ensures
        crate::text::lex_le(a, c),
    decreases a.len(),
{
    if a.len() != 0 && b.len() != 0 && c.len() != 0 && a[0] == b[0] && b[0] == c[0] {
        lemma_lex_le_trans(a.skip(1), b.skip(1), c.skip(1));
    }
}

/// Filtering a list one element longer keeps the old result and appends the
/// new element exactly when it passes.
proof fn lemma_filter_push(
    s: Seq<WorkspaceMemberV>,
    pred: spec_fn(WorkspaceMemberV) -> bool,
    x: WorkspaceMemberV,
)
    ensures
        s.push(x).filter(pred) == s.filter(pred) + if pred(x) {
            seq![x]
        } else {
            Seq::<WorkspaceMemberV>::empty()
        },
{
    reveal(Seq::filter);
    assert(s.push(x).drop_last() =~= s);
    if pred(x) {
        assert(s.push(x).filter(pred) =~= s.filter(pred) + seq![x]);
    } else {
        assert(s.push(x).filter(pred) =~= s.filter(pred) + Seq::<WorkspaceMemberV>::empty());
    }
}

/// Produce the definitive, validated member list: the explicit members in
/// their configured order, then — when auto-discovery is on — the discovered
/// members not already listed by path, ordered by path. A slug shared by two
/// of them is a configuration error, reported before anything is built.
pub fn resolve_members(cfg: &WorkspaceConfig, discovered: &Vec<WorkspaceMember>) -> (r: Result<
    Vec<WorkspaceMember>,
    OrandaError,
>)
    ensures
        r is Ok <==> unique_slugs(
            candidate_members(cfg@.members, members_view(discovered@), cfg@.auto),
        ),
        r matches Err(e) ==> (e matches OrandaError::ConfigValidation { slug } && duplicated_slug(
            candidate_members(cfg@.members, members_view(discovered@), cfg@.auto),
            slug@,
        )),
        r matches Ok(v) ==> {
            &&& members_view(v@).len() == candidate_members(
                cfg@.members,
                members_view(discovered@),
                cfg@.auto,
            ).len()
            &&& members_view(v@).subrange(0, cfg@.members.len() as int) == cfg@.members
            &&& sorted_by_path(members_view(v@).skip(cfg@.members.len() as int))
            &&& (forall|x: WorkspaceMemberV| #[trigger]
                members_view(v@).skip(cfg@.members.len() as int).contains(x)
                    <==> candidate_members(
                    cfg@.members,
                    members_view(discovered@),
                    cfg@.auto,
                ).skip(cfg@.members.len() as int).contains(x))
        },
{
    let ghost explicitv = cfg@.members;
    let ghost discv = members_view(discovered@);
    let ghost pred = new_member_pred(explicitv);

    // The member list to validate, in source order.
    let mut candidate: Vec<WorkspaceMember> = duplicate_members(&cfg.members);
    assert(members_view(candidate@) =~= explicitv);

    // The ordered auto part, built alongside.
    let mut auto_part: Vec<WorkspaceMember> = Vec::new();
    assert(members_view(auto_part@) =~= Seq::<WorkspaceMemberV>::empty());
    if cfg.auto {
        let mut d: usize = 0;
        assert(discv.subrange(0, 0).filter(pred) =~= Seq::<WorkspaceMemberV>::empty()) by {
            reveal(Seq::filter);
        }
        while d < discovered.len()
            invariant
                d <= discovered@.len(),
                discv == members_view(discovered@),
                pred == new_member_pred(explicitv),
                explicitv == members_view(cfg.members@),
                members_view(candidate@) == explicitv + discv.subrange(0, d as int).filter(pred),
                sorted_by_path(members_view(auto_part@)),
                members_view(auto_part@).len() == discv.subrange(0, d as int).filter(pred).len(),
                forall|x: WorkspaceMemberV| #[trigger]
                    members_view(auto_part@).contains(x) <==> discv.subrange(
                        0,
                        d as int,
                    ).filter(pred).contains(x),
            decreases discovered@.len() - d,
        {
            let ghost pre = discv.subrange(0, d as int);
            proof {
                assert(discv.subrange(0, d + 1) =~= pre.push(discv[d as int]));
                lemma_filter_push(pre, pred, discv[d as int]);
            }
            let m = &discovered[d];
            assert(m@ == discv[d as int]);
            if !path_listed(&cfg.members, m.path.as_str()) {
                assert(pred(m@));
                let ghost candv = members_view(candidate@);
                candidate.push(m.duplicate());
                assert(members_view(candidate@) =~= candv.push(m@));
                assert(candv.push(m@) =~= explicitv + pre.filter(pred) + seq![m@]);
                assert(explicitv + pre.filter(pred) + seq![m@] =~= explicitv + (pre.filter(pred)
                    + seq![m@]));
                insert_member_sorted(&mut auto_part, m.duplicate());
                proof {
                    let newfilter = discv.subrange(0, d + 1).filter(pred);
                    assert(newfilter =~= pre.filter(pred).push(m@));
                    assert forall|x: WorkspaceMemberV| #[trigger]
                        members_view(auto_part@).contains(x) <==> newfilter.contains(x) by {
                        if newfilter.contains(x) {
                            let ix = choose|ix: int|
                                0 <= ix < newfilter.len() && newfilter[ix] == x;
                            if ix < pre.filter(pred).len() {
                                assert(pre.filter(pred)[ix] == x);
                                assert(pre.filter(pred).contains(x));
                            } else {
                                assert(x == m@);
                            }
                        }
                        if members_view(auto_part@).contains(x) {
                            if x == m@ {
                                assert(newfilter[newfilter.len() - 1] == x);
                            } else {
                                assert(pre.filter(pred).contains(x));
                                let ix = choose|ix: int|
                                    0 <= ix < pre.filter(pred).len() && pre.filter(pred)[ix] == x;
                                assert(newfilter[ix] == x);
                            }
                        }
                    }
                }
            } else {
                assert(!pred(m@));
                assert(members_view(candidate@) == explicitv + discv.subrange(0, d + 1).filter(
                    pred,
                )) by {
                    assert(pre.filter(pred) + Seq::<WorkspaceMemberV>::empty() =~= pre.filter(
                        pred,
                    ));
                }
            }
            d = d + 1;
        }
        assert(discv.subrange(0, discovered@.len() as int) =~= discv);
    } else {
        assert(members_view(candidate@) =~= candidate_members(explicitv, discv, false)) by {
            assert(explicitv + Seq::<WorkspaceMemberV>::empty() =~= explicitv);
        }
    }
    assert(members_view(candidate@) == candidate_members(explicitv, discv, cfg@.auto)) by {
        assert(explicitv + Seq::<WorkspaceMemberV>::empty() =~= explicitv);
    }

    // Validate before anything is built: slugs must be unique.
    if let Some(slug) = find_duplicate_slug(&candidate) {
        return Err(OrandaError::ConfigValidation { slug });
    }

    // Assemble: explicit order first, ordered auto part after.
    let mut out: Vec<WorkspaceMember> = duplicate_members(&cfg.members);
    assert(members_view(out@) =~= explicitv);
    let ghost autov = members_view(auto_part@);
    let mut auto_part = auto_part;
    out.append(&mut auto_part);
    proof {
        assert(members_view(out@) =~= explicitv + autov);
        let outv = members_view(out@);
        let n = explicitv.len() as int;
        assert(outv.subrange(0, n) =~= explicitv);
        assert(outv.skip(n) =~= autov);
        let cand = candidate_members(explicitv, discv, cfg@.auto);
        assert(cand.skip(n) =~= if cfg@.auto {
            discv.filter(pred)
        } else {
            Seq::<WorkspaceMemberV>::empty()
        });
    }
    Ok(out)
}

} // verus!
