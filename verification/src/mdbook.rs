//! Book-backend support: which theme assets to write, and how the book's
//! own configuration is patched to select the injected theme.

use vstd::prelude::*;

verus! {

use crate::errors::OrandaError;
use crate::sections::{MdBookConfig, SyntaxTheme};
use crate::text::str_eq;
use vstd::string::StringExecFns;

/// What patching the theme keys into a book configuration text yields; a
/// function of the text and the theme name alone.
pub uninterp spec fn themed_book_toml(src: Seq<char>, theme: Seq<char>) -> Seq<char>;

/// Whether a book configuration text can take the theme keys: it parses
/// as TOML, and `output` and `output.html` are each absent or table-like.
/// A function of the text alone.
pub uninterp spec fn book_toml_patchable(src: Seq<char>) -> bool;

/// Relies on `toml_edit`: `DocumentMut::from_str` (format-preserving
/// parse, `None` when the text is not TOML), `Item::get` and
/// `Item::is_table_like` to refuse the shapes whose index assignment
/// would panic (a non-table `output` or `output.html`), index assignment
/// on the `output.html` table, `toml_edit::value`, and `Display` to write
/// the document back out. Each result depends on the text and theme name
/// alone.
#[verifier::external_body]
fn set_book_theme(src: &str, theme: &str) -> (r: Option<String>)
    ensures
        r is Some <==> book_toml_patchable(src@),
        r matches Some(t) ==> t@ == themed_book_toml(src@, theme@),
{
    let mut doc = match src.parse::<toml_edit::DocumentMut>() {
        Ok(d) => d,
        Err(_) => return None,
    };
    let shape_ok = doc.get("output").map_or(
        true,
        |o| o.is_table_like() && o.get("html").map_or(true, |h| h.is_table_like()),
    );
    if !shape_ok {
        return None;
    }
    doc["output"]["html"]["default-theme"] = toml_edit::value(theme);
    doc["output"]["html"]["preferred-dark-theme"] = toml_edit::value(theme);
    Some(doc.to_string())
}

/// Decide how the book's own configuration must change so that it selects
/// the injected theme: `Ok(None)` when the patched text is byte-identical
/// (so writing would only invalidate the backend's caches), `Ok(Some(new))`
/// when the file must be rewritten. It succeeds exactly when the text can
/// take the theme keys; anything else is a collaborator error.
pub fn plan_theme_patch(book_toml_src: &String) -> (r: Result<Option<String>, OrandaError>)
    ensures
        r is Ok <==> book_toml_patchable(book_toml_src@),
        r matches Ok(opt) ==> {
            &&& (opt is None <==> themed_book_toml(book_toml_src@, "axo"@) == book_toml_src@)
            &&& (opt matches Some(t) ==> t@ == themed_book_toml(book_toml_src@, "axo"@))
        },
        r matches Err(e) ==> e matches OrandaError::Collaborator { .. },
{
    match set_book_theme(book_toml_src.as_str(), "axo") {
        None => Err(
            OrandaError::Collaborator {
                component: "mdbook".to_owned(),
                details: "book.toml cannot take the theme keys".to_owned(),
            },
        ),
        Some(t) => {
            if str_eq(t.as_str(), book_toml_src.as_str()) {
                Ok(None)
            } else {
                Ok(Some(t))
            }
        },
    }
}

/// The theme files written into the book's theme directory, as paths
/// relative to it. The last one carries the highlighting style of the
/// given syntax theme.
pub fn theme_file_paths(syntax_theme: &SyntaxTheme) -> (r: Vec<String>)
    ensures
        r@.len() == 7,
        r@[0]@ == "css/general.css"@,
        r@[1]@ == "css/variables.css"@,
        r@[2]@ == "css/chrome.css"@,
        r@[3]@ == "fonts/fonts.css"@,
        r@[4]@ == "book.js"@,
        r@[5]@ == "index.hbs"@,
        r@[6]@ == "highlight.css"@,
{
    let mut out: Vec<String> = Vec::new();
    out.push("css/general.css".to_owned());
    out.push("css/variables.css".to_owned());
    out.push("css/chrome.css".to_owned());
    out.push("fonts/fonts.css".to_owned());
    out.push("book.js".to_owned());
    out.push("index.hbs".to_owned());
    out.push("highlight.css".to_owned());
    out
}

/// Everything the caller needs to drive one book build.
pub struct MdBookPlan {
    /// The book's own directory.
    pub book_dir: String,
    /// Whether the site's theme is injected first.
    pub inject_theme: bool,
    /// Where the built book is published, under the site's output dir.
    pub book_dist: String,
}

/// Plan a book build from the resolved book settings and the resolved
/// output directory: the theme is injected unless switched off, and the
/// book is published under `<dist_dir>/book`.
pub fn plan_mdbook(cfg: &MdBookConfig, dist_dir: &String) -> (r: MdBookPlan)
    ensures
        r.book_dir@ == cfg@.path,
        r.inject_theme == (cfg@.theme is None || cfg@.theme == Some(true)),
        r.book_dist@ == dist_dir@ + "/book"@,
{
    MdBookPlan {
        book_dir: cfg.path.clone(),
        inject_theme: cfg.theme_enabled(),
        book_dist: dist_dir.clone().concat("/book"),
    }
}

} // verus!
