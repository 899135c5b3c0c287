//! The workspace state store: the record, accumulated across separate
//! build invocations, of which members have finished building. Reading and
//! writing the artifact on disk is the caller's business (under a lock);
//! everything the record means is decided here.

use vstd::prelude::*;

verus! {

use crate::document::DocValue;
use crate::errors::OrandaError;
use crate::text::str_eq;
use crate::workspace::{
    has_member_slug, members_view, unique_slugs, WorkspaceMember, WorkspaceMemberV,
};

/// The members recorded as built so far. Kept slug-unique: recording a
/// member again replaces its entry.
pub struct WorkspaceState {
    pub members: Vec<WorkspaceMember>,
}

impl View for WorkspaceState {
    type V = Seq<WorkspaceMemberV>;

    open spec fn view(&self) -> Seq<WorkspaceMemberV> {
        members_view(self.members@)
    }
}

/// Where slug `sl` first occurs.
pub open spec fn first_slug_index(ms: Seq<WorkspaceMemberV>, sl: Seq<char>) -> int
    decreases ms.len(),
{
    if ms.len() == 0 {
        0
    } else if ms[0].slug == sl {
        0
    } else {
        1 + first_slug_index(ms.skip(1), sl)
    }
}

/// What recording a member yields: its slug's entry replaced if the slug
/// is already present, the member appended otherwise.
pub open spec fn spec_record(ms: Seq<WorkspaceMemberV>, m: WorkspaceMemberV) -> Seq<
    WorkspaceMemberV,
> {
    if has_member_slug(ms, m.slug) {
        ms.update(first_slug_index(ms, m.slug), m)
    } else {
        ms.push(m)
    }
}

/// The first occurrence of a present slug is in range, carries the slug,
/// and nothing before it does.
pub proof fn lemma_first_slug_index(ms: Seq<WorkspaceMemberV>, sl: Seq<char>)
    requires
        has_member_slug(ms, sl),
    ensures
        0 <= first_slug_index(ms, sl) < ms.len(),
        ms[first_slug_index(ms, sl)].slug == sl,
        forall|j: int| 0 <= j < first_slug_index(ms, sl) ==> ms[j].slug != sl,
    decreases ms.len(),
{
    if ms.len() != 0 && ms[0].slug != sl {
        let i = choose|i: int| 0 <= i < ms.len() && ms[i].slug == sl;
        assert(ms.skip(1)[i - 1] == ms[i]);
        assert(has_member_slug(ms.skip(1), sl));
        lemma_first_slug_index(ms.skip(1), sl);
        assert forall|j: int| 0 <= j < first_slug_index(ms, sl) implies ms[j].slug != sl by {
            if j > 0 {
                assert(ms.skip(1)[j - 1] == ms[j]);
            }
        }
    }
}

/// Recording keeps slugs unique and leaves the recorded slug present.
pub proof fn lemma_record_keeps_unique(ms: Seq<WorkspaceMemberV>, m: WorkspaceMemberV)
    requires
        unique_slugs(ms),
    ensures
        unique_slugs(spec_record(ms, m)),
        has_member_slug(spec_record(ms, m), m.slug),
{
    let out = spec_record(ms, m);
    if has_member_slug(ms, m.slug) {
        lemma_first_slug_index(ms, m.slug);
        let k = first_slug_index(ms, m.slug);
        assert(out[k] == m);
    } else {
        assert(out[ms.len() as int] == m);
        assert forall|i: int, j: int| 0 <= i < j < out.len() implies out[i].slug != out[j].slug by {
            if j == ms.len() {
                assert(out[i] == ms[i]);
                assert(!has_member_slug(ms, m.slug));
                assert(ms[i].slug != m.slug) by {
                    if ms[i].slug == m.slug {
                        assert(has_member_slug(ms, m.slug));
                    }
                }
            }
        }
    }
}

/// Recording the same member again changes nothing more: one entry per
/// slug, however often a member is rebuilt.
pub proof fn lemma_record_idempotent(ms: Seq<WorkspaceMemberV>, m: WorkspaceMemberV)
    requires
        unique_slugs(ms),
    ensures
        spec_record(spec_record(ms, m), m) == spec_record(ms, m),
{
    let once = spec_record(ms, m);
    lemma_record_keeps_unique(ms, m);
    if has_member_slug(ms, m.slug) {
        lemma_first_slug_index(ms, m.slug);
        let k = first_slug_index(ms, m.slug);
        assert(once == ms.update(k, m));
        assert(once[k] == m);
        lemma_first_slug_index(once, m.slug);
        let k2 = first_slug_index(once, m.slug);
        assert(once[k2].slug == m.slug);
        assert(ms[k].slug == m.slug);
        if k2 < k {
            assert(once[k2] == ms[k2]);
            assert(false);
        }
        if k2 > k {
            assert(forall|j: int| 0 <= j < k2 ==> once[j].slug != m.slug);
            assert(once[k].slug == m.slug);
            assert(false);
        }
        assert(spec_record(once, m) == once.update(k, m));
        assert(once.update(k, m) =~= once);
    } else {
        let k = ms.len() as int;
        assert(once == ms.push(m));
        assert(once[k] == m);
        lemma_first_slug_index(once, m.slug);
        let k2 = first_slug_index(once, m.slug);
        if k2 < k {
            assert(once[k2] == ms[k2]);
            assert(has_member_slug(ms, m.slug));
            assert(false);
        }
        assert(spec_record(once, m) == once.update(k, m));
        assert(once.update(k, m) =~= once);
    }
}

impl WorkspaceState {
    /// The state a workspace build begins with: nothing recorded.
    pub fn new() -> (r: WorkspaceState)
        ensures
            r@ == Seq::<WorkspaceMemberV>::empty(),
            unique_slugs(r@),
    {
        let members: Vec<WorkspaceMember> = Vec::new();
        proof {
            assert(members_view(members@) =~= Seq::<WorkspaceMemberV>::empty());
        }
        WorkspaceState { members }
    }

    /// Record that `m` finished building: replace its slug's entry if one
    /// is there, append it otherwise.
    pub fn record_member(&mut self, m: WorkspaceMember)
        ensures
            final(self)@ == spec_record(old(self)@, m@),
    {
        let ghost msv = old(self)@;
        let mut i: usize = 0;
        while i < self.members.len()
            invariant
                i <= self.members@.len(),
                msv == old(self)@,
                msv == members_view(self.members@),
                forall|j: int| 0 <= j < i ==> members_view(self.members@)[j].slug != m@.slug,
            decreases self.members@.len() - i,
        {
            if str_eq(self.members[i].slug.as_str(), m.slug.as_str()) {
                proof {
                    assert(msv[i as int].slug == m@.slug);
                    assert(has_member_slug(msv, m@.slug));
                    lemma_first_slug_index(msv, m@.slug);
                    let k = first_slug_index(msv, m@.slug);
                    if k < i as int {
                        assert(msv[k].slug == m@.slug);
                        assert(false);
                    }
                    if k > i as int {
                        assert(msv[i as int].slug != m@.slug);
                        assert(false);
                    }
                }
                self.members[i] = m;
                proof {
                    assert(members_view(self.members@) =~= msv.update(i as int, m@));
                    assert(self@ == msv.update(i as int, m@));
                    assert(spec_record(msv, m@) == msv.update(i as int, m@));
                }
                return ;
            }
            i = i + 1;
        }
        proof {
            assert(!has_member_slug(msv, m@.slug)) by {
                if has_member_slug(msv, m@.slug) {
                    let w = choose|w: int| 0 <= w < msv.len() && msv[w].slug == m@.slug;
                    assert(members_view(self.members@)[w].slug != m@.slug);
                }
            }
        }
        self.members.push(m);
        proof {
            assert(members_view(self.members@) =~= msv.push(m@));
        }
    }

    /// Whether every required slug has been recorded. Never changes the
    /// state.
    pub fn is_complete(&self, required_slugs: &Vec<String>) -> (r: bool)
        ensures
            r == (forall|i: int|
                0 <= i < required_slugs@.len() ==> has_member_slug(
                    self@,
                    #[trigger] required_slugs@[i]@,
                )),
    {
        let mut i: usize = 0;
        while i < required_slugs.len()
            invariant
                i <= required_slugs@.len(),
                forall|j: int|
                    0 <= j < i ==> has_member_slug(self@, #[trigger] required_slugs@[j]@),
            decreases required_slugs@.len() - i,
        {
            if !self.has_slug(required_slugs[i].as_str()) {
                return false;
            }
            i = i + 1;
        }
        true
    }

    /// Whether some recorded member has slug `sl`.
    pub fn has_slug(&self, sl: &str) -> (r: bool)
        ensures
            r == has_member_slug(self@, sl@),
    {
        let mut i: usize = 0;
        while i < self.members.len()
            invariant
                i <= self.members@.len(),
                forall|j: int| 0 <= j < i ==> members_view(self.members@)[j].slug != sl@,
            decreases self.members@.len() - i,
        {
            if str_eq(self.members[i].slug.as_str(), sl) {
                assert(members_view(self.members@)[i as int].slug == sl@);
                return true;
            }
            i = i + 1;
        }
        proof {
            if has_member_slug(self@, sl@) {
                let w = choose|w: int| 0 <= w < self@.len() && self@[w].slug == sl@;
                assert(members_view(self.members@)[w].slug != sl@);
            }
        }
        false
    }

    /// The recorded members, in recording order.
    pub fn members_list(&self) -> (r: Vec<WorkspaceMember>)
        ensures
            members_view(r@) == self@,
    {
        crate::workspace::duplicate_members(&self.members)
    }
}

// ---------------------------------------------------------------------------
// the persisted artifact

/// What the state artifact holds when it is well formed: exactly one
/// `members` list whose entries parse as members with pairwise distinct
/// slugs. Anything else is corruption, surfaced, never silently reset.
pub open spec fn spec_parse_state(doc: DocValue) -> Option<Seq<WorkspaceMemberV>> {
    match doc {
        DocValue::Dict(es) => if es@.len() == 1 && es@[0].0@ == "members"@ && es@[0].1 is List {
            match crate::parse::spec_parse_members(es@[0].1->List_0@) {
                Ok(ms) => if unique_slugs(ms) {
                    Some(ms)
                } else {
                    None
                },
                Err(_) => None,
            }
        } else {
            None
        },
        _ => None,
    }
}

/// A member rendered as a document table: exactly its slug and path.
pub open spec fn member_doc_shape(d: DocValue, m: WorkspaceMemberV) -> bool {
    &&& d is Dict
    &&& d->Dict_0@.len() == 2
    &&& d->Dict_0@[0].0@ == "slug"@
    &&& (d->Dict_0@[0].1 matches DocValue::Str(s) && s@ == m.slug)
    &&& d->Dict_0@[1].0@ == "path"@
    &&& (d->Dict_0@[1].1 matches DocValue::Str(p) && p@ == m.path)
}

/// A table of that shape parses back to exactly the member it renders.
proof fn lemma_member_doc_parses(d: DocValue, m: WorkspaceMemberV)
    requires
        member_doc_shape(d, m),
    ensures
        d matches DocValue::Dict(mes) && crate::parse::spec_parse_member(mes@) == Ok::<
            _,
            Seq<char>,
        >(m),
{
    reveal_strlit("slug");
    reveal_strlit("path");
    let mes = d->Dict_0;
    assert("path"@[0] != "slug"@[0]);
    assert("path"@ != "slug"@);
    assert(crate::parse::spec_parse_member_from(mes@, None, None)
        == crate::parse::spec_parse_member_from(mes@.skip(1), Some(m.slug), None));
    assert(mes@.skip(1)[0] == mes@[1]);
    assert(mes@.skip(1).skip(1) =~= mes@.skip(2));
    assert(crate::parse::spec_parse_member_from(mes@.skip(1), Some(m.slug), None)
        == crate::parse::spec_parse_member_from(mes@.skip(2), Some(m.slug), Some(m.path)));
    assert(mes@.skip(2).len() == 0);
}

/// A list of such tables parses back to exactly the members it renders.
proof fn lemma_member_docs_parse(
    vs: Seq<DocValue>,
    ms: Seq<WorkspaceMemberV>,
    acc: Seq<WorkspaceMemberV>,
)
    requires
        vs.len() == ms.len(),
        forall|i: int| 0 <= i < vs.len() ==> member_doc_shape(#[trigger] vs[i], ms[i]),
    ensures
        crate::parse::spec_parse_members_from(vs, acc) == Ok::<_, Seq<char>>(acc + ms),
    decreases vs.len(),
{
    if vs.len() == 0 {
        assert(acc + ms =~= acc);
    } else {
        lemma_member_doc_parses(vs[0], ms[0]);
        assert(vs.skip(1).len() == ms.skip(1).len());
        assert forall|i: int| 0 <= i < vs.skip(1).len() implies member_doc_shape(
            #[trigger] vs.skip(1)[i],
            ms.skip(1)[i],
        ) by {
            assert(vs.skip(1)[i] == vs[i + 1]);
            assert(ms.skip(1)[i] == ms[i + 1]);
        }
        lemma_member_docs_parse(vs.skip(1), ms.skip(1), acc.push(ms[0]));
        assert(acc.push(ms[0]) + ms.skip(1) =~= acc + ms);
    }
}

impl WorkspaceState {
    /// Read the state off its persisted document. `state_path` says where
    /// the document came from, so that corruption is reported with its
    /// place.
    pub fn parse_state(state_path: &String, doc: &DocValue) -> (r: Result<
        WorkspaceState,
        OrandaError,
    >)
        ensures
            r matches Ok(st) ==> spec_parse_state(*doc) == Some(st@) && unique_slugs(st@),
            r is Ok <==> spec_parse_state(*doc) is Some,
            r matches Err(e) ==> (e matches OrandaError::StateCorruption { path } && path@
                == state_path@),
    {
        let es = match doc {
            DocValue::Dict(es) => es,
            _ => {
                return Err(OrandaError::StateCorruption { path: state_path.clone() });
            },
        };
        if es.len() != 1 {
            return Err(OrandaError::StateCorruption { path: state_path.clone() });
        }
        let e = &es[0];
        if !str_eq(e.0.as_str(), "members") {
            return Err(OrandaError::StateCorruption { path: state_path.clone() });
        }
        let vs = match &e.1 {
            DocValue::List(vs) => vs,
            _ => {
                return Err(OrandaError::StateCorruption { path: state_path.clone() });
            },
        };
        let members = match crate::parse::parse_members(vs) {
            Ok(ms) => ms,
            Err(_) => {
                return Err(OrandaError::StateCorruption { path: state_path.clone() });
            },
        };
        if crate::workspace::find_duplicate_slug(&members).is_some() {
            return Err(OrandaError::StateCorruption { path: state_path.clone() });
        }
        Ok(WorkspaceState { members })
    }

    /// The state as a document, ready to be persisted whole: one
    /// `members` list, each member a table of its slug and path. A
    /// well-formed state written this way reads back as exactly itself.
    pub fn to_doc(&self) -> (r: DocValue)
        ensures
            r matches DocValue::Dict(es) && es@.len() == 1 && es@[0].0@ == "members"@
                && (es@[0].1 matches DocValue::List(vs) && vs@.len() == self@.len() && (forall|
                i: int,
            |
                0 <= i < vs@.len() ==> member_doc_shape(#[trigger] vs@[i], self@[i]))),
            unique_slugs(self@) ==> spec_parse_state(r) == Some(self@),
    {
        let mut vs: Vec<DocValue> = Vec::new();
        let mut i: usize = 0;
        while i < self.members.len()
            invariant
                i <= self.members@.len(),
                vs@.len() == i,
                forall|j: int|
                    0 <= j < i ==> member_doc_shape(
                        #[trigger] vs@[j],
                        members_view(self.members@)[j],
                    ),
            decreases self.members@.len() - i,
        {
            let m = &self.members[i];
            let mut mes: Vec<(String, DocValue)> = Vec::new();
            mes.push(("slug".to_owned(), DocValue::Str(m.slug.clone())));
            mes.push(("path".to_owned(), DocValue::Str(m.path.clone())));
            vs.push(DocValue::Dict(mes));
            i = i + 1;
        }
        let mut es: Vec<(String, DocValue)> = Vec::new();
        proof {
            if unique_slugs(self@) {
                lemma_member_docs_parse(
                    vs@,
                    self@,
                    Seq::<WorkspaceMemberV>::empty(),
                );
                assert(Seq::<WorkspaceMemberV>::empty() + self@ =~= self@);
            }
        }
        es.push(("members".to_owned(), DocValue::List(vs)));
        DocValue::Dict(es)
    }
}

} // verus!
