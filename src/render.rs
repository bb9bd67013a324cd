//! Search results and how each is rendered.

use vstd::prelude::*;
use vstd::string::*;
use crate::error::SearchError;
use crate::highlight::{fragment_text, TermMatcher};
use crate::text::views;

verus! {

/// One excerpt of matched content.
pub struct TextMatch {
    pub fragment: String,
}

/// One result of a code search.
pub struct SearchResultItem {
    /// Full name of the repository that holds the file.
    pub repository: String,
    pub path: String,
    pub sha: String,
    pub text_matches: Option<Vec<TextMatch>>,
}

/// The header line of a result.
pub open spec fn header_text(repo: Seq<char>, path: Seq<char>, sha: Seq<char>) -> Seq<char> {
    repo + " "@ + path + " ("@ + sha + "):"@
}

/// The rendered fragments of a list of text matches, in order.
pub open spec fn fragments_text(
    pattern: Seq<char>,
    matches: Seq<TextMatch>,
    replacement: Seq<char>,
    marker: Seq<char>,
) -> Seq<Seq<char>> {
    matches.map_values(|t: TextMatch| fragment_text(pattern, t.fragment@, replacement, marker))
}

/// `<repo> <path> (<sha>):`, the line that introduces a result. The three
/// parts may carry terminal styling.
pub fn render_header(repo: &str, path: &str, sha: &str) -> (r: String)
    ensures
        r@ == header_text(repo@, path@, sha@),
{
    let mut r = String::from_str(repo);
    r.append(" ");
    r.append(path);
    r.append(" (");
    r.append(sha);
    r.append("):");
    r
}

/// The rendered fragments of one result, one string per text match, in
/// order; fails with `MissingTextMatches` exactly when the result has none.
pub fn render_matches(
    matcher: &TermMatcher,
    item: &SearchResultItem,
    replacement: &str,
    marker: &str,
) -> (r: Result<Vec<String>, SearchError>)
    ensures
        r is Err <==> item.text_matches is None,
        r matches Err(e) ==> e == SearchError::MissingTextMatches,
        r matches Ok(v) ==> views(v@) == fragments_text(
            matcher.pattern(),
            item.text_matches->0@,
            replacement@,
            marker@,
        ),
{
    match &item.text_matches {
        None => Err(SearchError::MissingTextMatches),
        Some(matches) => {
            let mut out: Vec<String> = Vec::new();
            let mut i: usize = 0;
            while i < matches.len()
                invariant
                    i <= matches@.len(),
                    out@.len() == i,
                    forall|k: int|
                        0 <= k < i ==> #[trigger] out@[k]@ == fragment_text(
                            matcher.pattern(),
                            matches@[k].fragment@,
                            replacement@,
                            marker@,
                        ),
                decreases matches@.len() - i,
            {
                let f = matcher.render_fragment(matches[i].fragment.as_str(), replacement, marker);
                let ghost before = out@;
                out.push(f);
                proof {
                    assert(forall|k: int| 0 <= k < i ==> out@[k] == before[k]);
                }
                i = i + 1;
            }
            assert(views(out@) =~= fragments_text(
                matcher.pattern(),
                matches@,
                replacement@,
                marker@,
            ));
            Ok(out)
        },
    }
}

} // verus!
