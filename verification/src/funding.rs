//! Funding data: the providers a project lists in its FUNDING.yml, parsed
//! strictly into a closed set of known providers.

use vstd::prelude::*;

verus! {

use crate::document::DocValue;
use crate::errors::OrandaError;
use crate::text::str_eq;

/// An enumeration of the supported funding providers: the key portion of a
/// FUNDING.yml entry. Closed on purpose — an unknown provider is a parse
/// error, not a free-form string.
#[derive(Debug, Clone, Copy, PartialOrd, PartialEq, Eq, Structural, Hash)]
pub enum FundingType {
    Github,
    Patreon,
    OpenCollective,
    KoFi,
    Tidelift,
    CommunityBridge,
    Issuehunt,
    Liberapay,
    Custom,
}

/// The value of a FUNDING.yml entry: one handle, or several.
#[derive(Debug, Clone)]
pub enum FundingContent {
    One(String),
    Multiple(Vec<String>),
}

pub ghost enum FundingContentV {
    One(Seq<char>),
    Multiple(Seq<Seq<char>>),
}

impl View for FundingContent {
    type V = FundingContentV;

    open spec fn view(&self) -> FundingContentV {
        match self {
            FundingContent::One(s) => FundingContentV::One(s@),
            FundingContent::Multiple(ss) => FundingContentV::Multiple(
                ss@.map_values(|s: String| s@),
            ),
        }
    }
}

/// Funding data: what FUNDING.yml lists, and the rendered contents of the
/// optional funding Markdown page. The entries keep the file's order; each
/// provider occurs at most once.
#[derive(Debug, Clone)]
pub struct Funding {
    /// Contents of the FUNDING.yml file.
    pub content: Vec<(FundingType, FundingContent)>,
    /// Content rendered from the optional Markdown file.
    pub docs_content: Option<String>,
}

/// The provider a FUNDING.yml key names, if any.
pub open spec fn spec_funding_type_of(k: Seq<char>) -> Option<FundingType> {
    if k == "github"@ {
        Some(FundingType::Github)
    } else if k == "patreon"@ {
        Some(FundingType::Patreon)
    } else if k == "open_collective"@ {
        Some(FundingType::OpenCollective)
    } else if k == "ko_fi"@ {
        Some(FundingType::KoFi)
    } else if k == "tidelift"@ {
        Some(FundingType::Tidelift)
    } else if k == "community_bridge"@ {
        Some(FundingType::CommunityBridge)
    } else if k == "issuehunt"@ {
        Some(FundingType::Issuehunt)
    } else if k == "liberapay"@ {
        Some(FundingType::Liberapay)
    } else if k == "custom"@ {
        Some(FundingType::Custom)
    } else {
        None
    }
}

impl FundingType {
    /// Read a provider off its FUNDING.yml key.
    pub fn from_key(k: &str) -> (r: Option<FundingType>)
        ensures
            r == spec_funding_type_of(k@),
    {
        if str_eq(k, "github") {
            Some(FundingType::Github)
        } else if str_eq(k, "patreon") {
            Some(FundingType::Patreon)
        } else if str_eq(k, "open_collective") {
            Some(FundingType::OpenCollective)
        } else if str_eq(k, "ko_fi") {
            Some(FundingType::KoFi)
        } else if str_eq(k, "tidelift") {
            Some(FundingType::Tidelift)
        } else if str_eq(k, "community_bridge") {
            Some(FundingType::CommunityBridge)
        } else if str_eq(k, "issuehunt") {
            Some(FundingType::Issuehunt)
        } else if str_eq(k, "liberapay") {
            Some(FundingType::Liberapay)
        } else if str_eq(k, "custom") {
            Some(FundingType::Custom)
        } else {
            None
        }
    }
}

/// Whether some parsed entry already names provider `t`.
pub open spec fn has_funding_type(es: Seq<(FundingType, FundingContentV)>, t: FundingType) -> bool {
    exists|i: int| 0 <= i < es.len() && es[i].0 == t
}

/// Parse FUNDING.yml entries, front to back: an unknown provider key, a
/// repeated provider, or a value that is neither a string nor a list of
/// strings fails naming the key.
pub open spec fn spec_parse_funding_from(
    es: Seq<(String, DocValue)>,
    acc: Seq<(FundingType, FundingContentV)>,
) -> Result<Seq<(FundingType, FundingContentV)>, Seq<char>>
    decreases es.len(),
{
    if es.len() == 0 {
        Ok(acc)
    } else {
        match spec_funding_type_of(es[0].0@) {
            None => Err(es[0].0@),
            Some(t) => if has_funding_type(acc, t) {
                Err(es[0].0@)
            } else {
                match spec_funding_content_of(es[0].1) {
                    Some(c) => spec_parse_funding_from(es.skip(1), acc.push((t, c))),
                    None => Err(es[0].0@),
                }
            },
        }
    }
}

/// The funding content a document value holds: a string, or a list that
/// holds only strings.
pub open spec fn spec_funding_content_of(v: DocValue) -> Option<FundingContentV> {
    match v {
        DocValue::Str(s) => Some(FundingContentV::One(s@)),
        DocValue::List(vs) => if forall|i: int| 0 <= i < vs@.len() ==> vs@[i] is Str {
            Some(
                FundingContentV::Multiple(
                    vs@.map_values(
                        |dv: DocValue|
                            match dv {
                                DocValue::Str(s) => s@,
                                _ => Seq::empty(),
                            },
                    ),
                ),
            )
        } else {
            None
        },
        _ => None,
    }
}

pub open spec fn spec_parse_funding(es: Seq<(String, DocValue)>) -> Result<
    Seq<(FundingType, FundingContentV)>,
    Seq<char>,
> {
    spec_parse_funding_from(es, Seq::empty())
}

/// The views of parsed funding entries.
pub open spec fn funding_entries_view(es: Seq<(FundingType, FundingContent)>) -> Seq<
    (FundingType, FundingContentV),
> {
    es.map_values(|e: (FundingType, FundingContent)| (e.0, e.1@))
}

/// Read a funding value off a document value.
fn parse_funding_content(v: &DocValue) -> (r: Option<FundingContent>)
    ensures
        r matches Some(c) ==> spec_funding_content_of(*v) == Some(c@),
        r is Some <==> spec_funding_content_of(*v) is Some,
{
    match v {
        DocValue::Str(s) => Some(FundingContent::One(s.clone())),
        DocValue::List(vs) => {
            let mut out: Vec<String> = Vec::new();
            let mut i: usize = 0;
            while i < vs.len()
                invariant
                    (*v) matches DocValue::List(lst) && lst@ == vs@,
                    i <= vs@.len(),
                    out@.len() == i,
                    forall|j: int| 0 <= j < i ==> vs@[j] is Str,
                    forall|j: int|
                        0 <= j < i ==> (#[trigger] out@[j])@ == vs@[j]->Str_0@,
                decreases vs@.len() - i,
            {
                match &vs[i] {
                    DocValue::Str(s) => {
                        out.push(s.clone());
                    },
                    _ => {
                        proof {
                            assert(!(vs@[i as int] is Str));
                            assert(!(forall|j: int| 0 <= j < vs@.len() ==> vs@[j] is Str));
                        }
                        return None;
                    },
                }
                i = i + 1;
            }
            proof {
                let mapped = vs@.map_values(
                    |dv: DocValue|
                        match dv {
                            DocValue::Str(s) => s@,
                            _ => Seq::<char>::empty(),
                        },
                );
                assert(out@.map_values(|s: String| s@) =~= mapped);
            }
            Some(FundingContent::Multiple(out))
        },
        _ => None,
    }
}

/// Parse the entries of a FUNDING.yml document.
pub fn parse_funding(es: &Vec<(String, DocValue)>) -> (r: Result<
    Vec<(FundingType, FundingContent)>,
    OrandaError,
>)
    ensures
        r matches Ok(v) ==> spec_parse_funding(es@) == Ok::<_, Seq<char>>(
            funding_entries_view(v@),
        ),
        r matches Err(e) ==> (e matches OrandaError::ConfigParse { field }
            && spec_parse_funding(es@) == Err::<Seq<(FundingType, FundingContentV)>, _>(field@)),
{
    let mut out: Vec<(FundingType, FundingContent)> = Vec::new();
    let mut i: usize = 0;
    assert(es@.skip(0) =~= es@);
    assert(funding_entries_view(out@) =~= Seq::<(FundingType, FundingContentV)>::empty());
    while i < es.len()
        invariant
            i <= es@.len(),
            spec_parse_funding_from(es@.skip(i as int), funding_entries_view(out@))
                == spec_parse_funding(es@),
        decreases es@.len() - i,
    {
        proof {
            assert(es@.skip(i as int)[0] == es@[i as int]);
            assert(es@.skip(i as int).skip(1) =~= es@.skip(i + 1));
        }
        let e = &es[i];
        let t = match FundingType::from_key(e.0.as_str()) {
            Some(t) => t,
            None => {
                return Err(OrandaError::ConfigParse { field: e.0.clone() });
            },
        };
        if has_type_listed(&out, t) {
            return Err(OrandaError::ConfigParse { field: e.0.clone() });
        }
        let c = match parse_funding_content(&e.1) {
            Some(c) => c,
            None => {
                return Err(OrandaError::ConfigParse { field: e.0.clone() });
            },
        };
        let ghost prev = funding_entries_view(out@);
        out.push((t, c));
        proof {
            assert(funding_entries_view(out@) =~= prev.push((t, c@)));
        }
        i = i + 1;
    }
    assert(es@.skip(es@.len() as int).len() == 0);
    Ok(out)
}

/// Whether provider `t` is already listed.
fn has_type_listed(es: &Vec<(FundingType, FundingContent)>, t: FundingType) -> (r: bool)
    ensures
        r == has_funding_type(funding_entries_view(es@), t),
{
    let mut i: usize = 0;
    while i < es.len()
        invariant
            i <= es@.len(),
            forall|j: int| 0 <= j < i ==> funding_entries_view(es@)[j].0 != t,
        decreases es@.len() - i,
    {
        if es[i].0 == t {
            assert(funding_entries_view(es@)[i as int].0 == t);
            return true;
        }
        i = i + 1;
    }
    proof {
        if has_funding_type(funding_entries_view(es@), t) {
            let w = choose|w: int|
                0 <= w < funding_entries_view(es@).len() && funding_entries_view(es@)[w].0 == t;
            assert(funding_entries_view(es@)[w].0 != t);
        }
    }
    false
}

impl Funding {
    /// Assemble funding data from what was read off disk: the parsed
    /// FUNDING.yml document, if the file was there and readable, and the
    /// already-rendered funding page, if one is configured. Fails exactly
    /// when the document breaks the funding schema.
    pub fn from_parts(yml: Option<&Vec<(String, DocValue)>>, docs_content: Option<String>) -> (r:
        Result<Funding, OrandaError>)
        ensures
            r matches Ok(f) ==> {
                &&& (match yml {
                    Some(es) => spec_parse_funding(es@) == Ok::<_, Seq<char>>(
                        funding_entries_view(f.content@),
                    ),
                    None => f.content@.len() == 0,
                })
                &&& f.docs_content == docs_content
            },
            r is Ok <==> (yml matches Some(es) ==> spec_parse_funding(es@) is Ok),
            r matches Err(e) ==> (yml matches Some(es) && e matches OrandaError::ConfigParse {
                field,
            } && spec_parse_funding(es@) == Err::<Seq<(FundingType, FundingContentV)>, _>(field@)),
    {
        let content: Vec<(FundingType, FundingContent)> = match yml {
            Some(es) => match parse_funding(es) {
                Ok(c) => c,
                Err(e) => {
                    return Err(e);
                },
            },
            None => Vec::new(),
        };
        Ok(Funding { content, docs_content })
    }
}

} // verus!
