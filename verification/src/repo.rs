//! GitHub repository coordinates, read off a repository URL.

use vstd::prelude::*;

verus! {

use crate::errors::OrandaError;

/// A GitHub repository this tool can query things about. Building one
/// checks the URL's shape only, not that the repository exists.
#[derive(Debug, Clone)]
pub struct GithubRepo {
    /// The repository owner.
    pub owner: String,
    /// The repository name.
    pub name: String,
}

/// Whether the text parses as a URL; a function of the text alone.
pub uninterp spec fn url_ok(s: Seq<char>) -> bool;

/// The parsed URL serialized back to text; a function of the text alone.
/// Meaningful only where `url_ok` holds.
pub uninterp spec fn url_normalized(s: Seq<char>) -> Seq<char>;

/// The parsed URL's path segments — `Some` exactly when the URL can be a
/// base; a function of the text alone. Meaningful only where `url_ok`
/// holds.
pub uninterp spec fn url_segments_of(s: Seq<char>) -> Option<Seq<Seq<char>>>;

/// The view of an optional segment list.
pub open spec fn opt_segments_view(o: Option<Vec<String>>) -> Option<Seq<Seq<char>>> {
    match o {
        Some(v) => Some(v@.map_values(|s: String| s@)),
        None => None,
    }
}

/// Relies on `url::Url::parse` (`Ok` exactly when the text is a valid
/// URL), `Url::path_segments` (`Some` exactly when the URL can be a base,
/// with the slash-separated segments of its path, each a plain string),
/// and the `Display` impls of `Url` and `ParseError`. Each result is a
/// function of the text alone.
#[verifier::external_body]
fn url_parts(s: &str) -> (r: Result<(String, Option<Vec<String>>), String>)
    ensures
        r is Ok <==> url_ok(s@),
        r matches Ok(p) ==> p.0@ == url_normalized(s@) && opt_segments_view(p.1)
            == url_segments_of(s@),
{
    match url::Url::parse(s) {
        Ok(u) => {
            let segments = u.path_segments().map(|c| c.map(|x| x.to_string()).collect());
            Ok((u.to_string(), segments))
        },
        Err(e) => Err(format!("{}", e)),
    }
}

/// A byte that counts as blank in a path segment: space, tab, or a line
/// break.
pub open spec fn is_blank_byte(b: u8) -> bool {
    b == 32 || b == 9 || b == 10 || b == 13
}

/// A segment of nothing but blanks (or nothing at all), judged by its
/// UTF-8 encoding. The URL parser percent-encodes or strips everything
/// else whitespace-like, so segments it hands over never carry raw
/// Unicode whitespace and these four bytes cover every case that can
/// reach this check.
pub open spec fn is_blank(s: Seq<char>) -> bool {
    forall|i: int|
        0 <= i < vstd::utf8::encode_utf8(s).len() ==> is_blank_byte(
            #[trigger] vstd::utf8::encode_utf8(s)[i],
        )
}

/// Whether `s` holds only blank characters.
fn blank(s: &str) -> (r: bool)
    ensures
        r == is_blank(s@),
{
    let bytes = s.as_bytes();
    let mut i: usize = 0;
    while i < bytes.len()
        invariant
            i <= bytes@.len(),
            bytes@ == vstd::utf8::encode_utf8(s@),
            forall|j: int| 0 <= j < i ==> is_blank_byte(#[trigger] bytes@[j]),
        decreases bytes@.len() - i,
    {
        let b = bytes[i];
        if !(b == 32 || b == 9 || b == 10 || b == 13) {
            return false;
        }
        i = i + 1;
    }
    true
}

/// Segments that spell an owner/name repository: at least two, and
/// everything after the first two blank.
pub open spec fn valid_repo_segments(segs: Seq<Seq<char>>) -> bool {
    &&& segs.len() >= 2
    &&& forall|i: int| 2 <= i < segs.len() ==> is_blank(segs[i])
}

impl GithubRepo {
    /// Read owner and name off a URL's path segments: the first two, with
    /// at most blank segments after them (a trailing slash, say). More than
    /// that is an error naming the URL.
    pub fn from_segments(url_text: &String, segments: &Vec<String>) -> (r: Result<
        GithubRepo,
        OrandaError,
    >)
        ensures
            r is Ok <==> valid_repo_segments(segments@.map_values(|s: String| s@)),
            r matches Ok(repo) ==> segments@.len() >= 2 && repo.owner@ == segments@[0]@
                && repo.name@ == segments@[1]@,
            r matches Err(e) ==> (e matches OrandaError::RepoParse { repo, .. } && repo@
                == url_text@),
    {
        let ghost segsv = segments@.map_values(|s: String| s@);
        if segments.len() < 2 {
            return Err(
                OrandaError::RepoParse {
                    repo: url_text.clone(),
                    details: "this URL has fewer parts than expected".to_owned(),
                },
            );
        }
        let mut i: usize = 2;
        while i < segments.len()
            invariant
                2 <= i <= segments@.len(),
                segsv == segments@.map_values(|s: String| s@),
                forall|j: int| 2 <= j < i ==> is_blank(#[trigger] segsv[j]),
            decreases segments@.len() - i,
        {
            if !blank(segments[i].as_str()) {
                assert(!is_blank(segsv[i as int]));
                return Err(
                    OrandaError::RepoParse {
                        repo: url_text.clone(),
                        details: "this URL has more parts than expected".to_owned(),
                    },
                );
            }
            i = i + 1;
        }
        let owner = segments[0].clone();
        let name = segments[1].clone();
        Ok(GithubRepo { owner, name })
    }

    /// Construct a repository from a URL such as
    /// `https://github.com/owner/name`: it succeeds exactly when the text
    /// parses as a URL whose path segments spell an owner and a name
    /// (blank trailing segments aside), and every error names the URL.
    pub fn from_url(repo_url: &String) -> (r: Result<GithubRepo, OrandaError>)
        ensures
            r is Ok <==> (url_ok(repo_url@) && (url_segments_of(repo_url@) matches Some(segs)
                && valid_repo_segments(segs))),
            r matches Ok(repo) ==> (url_segments_of(repo_url@) matches Some(segs) && repo.owner@
                == segs[0] && repo.name@ == segs[1]),
            r matches Err(e) ==> (e matches OrandaError::RepoParse { repo, .. } && repo@ == (
                if url_ok(repo_url@) {
                    url_normalized(repo_url@)
                } else {
                    repo_url@
                })),
    {
        let (normalized, segments_opt) = match url_parts(repo_url.as_str()) {
            Ok(p) => p,
            Err(details) => {
                return Err(OrandaError::RepoParse { repo: repo_url.clone(), details });
            },
        };
        match segments_opt {
            Some(segments) => GithubRepo::from_segments(&normalized, &segments),
            None => Err(
                OrandaError::RepoParse {
                    repo: normalized,
                    details: "this URL cannot carry a repository path".to_owned(),
                },
            ),
        }
    }
}

} // verus!
