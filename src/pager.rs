//! The decisions of the paging loop.
//!
//! The loop itself, which sends each request and decodes each body, runs
//! outside the library: for every response it asks `page_step` what to do.
//! Every page that answers 200 is rendered; the loop goes on while a page
//! names a next one.

use vstd::prelude::*;
use vstd::string::*;
use crate::config::Config;
use crate::error::SearchError;
use crate::link::{next_link, next_link_of};

verus! {

/// The status of a successful page.
pub const STATUS_OK: u16 = 200;

/// The next-page address a response gives, by its optional `link` header.
pub open spec fn next_page_of(link: Option<&str>) -> Option<Seq<char>> {
    match link {
        Some(h) => next_link_of(h@),
        None => None,
    }
}

/// What to do with a response: any status but 200 ends the run with
/// `UnexpectedStatus`, with no further request; otherwise the page is
/// rendered and `Ok` carries the next page's address, or `None` when this
/// was the last page.
pub fn page_step(status: u16, link: Option<&str>) -> (r: Result<Option<String>, SearchError>)
    ensures
        status != STATUS_OK ==> r == Err::<Option<String>, SearchError>(
            SearchError::UnexpectedStatus(status),
        ),
        status == STATUS_OK ==> r is Ok && r->Ok_0.deep_view() == next_page_of(link),
{
    if status != STATUS_OK {
        return Err(SearchError::UnexpectedStatus(status));
    }
    match link {
        Some(h) => Ok(next_link(h)),
        None => Ok(None),
    }
}

/// The headers of every request: user agent, the media type that asks for
/// text matches, and `token <token>` as authorization. `None` when the
/// configuration holds no token.
pub fn request_headers(config: &Config) -> (r: Option<Vec<(String, String)>>)
    ensures
        r is Some <==> config.token is Some,
        r matches Some(h) ==> {
            &&& h@.len() == 3
            &&& h@[0].0@ == "user-agent"@ && h@[0].1@ == "gsv (github search vehicle)"@
            &&& h@[1].0@ == "accept"@ && h@[1].1@ == "application/vnd.github.v3.text-match+json"@
            &&& h@[2].0@ == "authorization"@ && h@[2].1@ == "token "@ + config.token->0@
        },
{
    match &config.token {
        None => None,
        Some(token) => {
            let mut h: Vec<(String, String)> = Vec::new();
            h.push(
                (
                    String::from_str("user-agent"),
                    String::from_str("gsv (github search vehicle)"),
                ),
            );
            h.push(
                (
                    String::from_str("accept"),
                    String::from_str("application/vnd.github.v3.text-match+json"),
                ),
            );
            h.push(
                (
                    String::from_str("authorization"),
                    String::from_str("token ").concat(token.as_str()),
                ),
            );
            Some(h)
        },
    }
}

} // verus!
