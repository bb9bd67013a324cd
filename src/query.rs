//! Building the search address from terms and default scopes.

use vstd::prelude::*;
use vstd::string::*;
use vstd::utf8::encode_utf8;
use crate::config::{org_qualifier, Config};
use crate::text::{join, join_with, views};

verus! {

/// Bytes that percent-encoding leaves as they are: ASCII letters, digits
/// and `-`, `.`, `_`, `~`.
pub open spec fn is_unreserved(b: u8) -> bool {
    (0x30 <= b && b <= 0x39) || (0x41 <= b && b <= 0x5a) || (0x61 <= b && b <= 0x7a) || b == 0x2d
        || b == 0x2e || b == 0x5f || b == 0x7e
}

/// Upper-case hex digit of a value below 16.
pub open spec fn hex_char(d: int) -> char {
    "0123456789ABCDEF"@[d]
}

pub open spec fn encode_byte(b: u8) -> Seq<char> {
    if is_unreserved(b) {
        seq![b as char]
    } else {
        seq!['%', hex_char(b as int / 16), hex_char(b as int % 16)]
    }
}

/// Percent-encoding of a byte string.
pub open spec fn percent_encode(bytes: Seq<u8>) -> Seq<char>
    decreases bytes.len(),
{
    if bytes.len() == 0 {
        Seq::empty()
    } else {
        encode_byte(bytes[0]) + percent_encode(bytes.drop_first())
    }
}

/// The search terms: the given terms in order, then the default scopes.
pub open spec fn query_terms(params: Seq<Seq<char>>, config: Config) -> Seq<Seq<char>> {
    params + config.org_qualifiers()
}

/// The query text: the search terms joined with single spaces.
pub open spec fn query_text(params: Seq<Seq<char>>, config: Config) -> Seq<char> {
    join_with(query_terms(params, config), " "@)
}

/// The address of the first results page.
pub open spec fn search_url_of(params: Seq<Seq<char>>, config: Config) -> Seq<char> {
    config.url@ + "/search/code?q="@ + percent_encode(encode_utf8(query_text(params, config)))
}

/// Relies on urlencoding::encode: each byte of the UTF-8 text other than
/// ASCII letters, digits and `-._~` becomes `%` with two upper-case hex digits.
#[verifier::external_body]
fn url_encode(s: &str) -> (r: String)
    ensures
        r@ == percent_encode(encode_utf8(s@)),
{
    urlencoding::encode(s).into_owned()
}

/// The query text: `params` followed by the configuration's scope
/// qualifiers, joined with single spaces.
pub fn search_query(config: &Config, params: &[String]) -> (r: String)
    ensures
        r@ == query_text(views(params@), *config),
{
    let mut terms: Vec<String> = Vec::new();
    let mut i: usize = 0;
    while i < params.len()
        invariant
            i <= params@.len(),
            terms@.len() == i,
            views(terms@) == views(params@).subrange(0, i as int),
        decreases params@.len() - i,
    {
        let ghost before = terms@;
        terms.push(params[i].clone());
        proof {
            assert(terms@[i as int]@ == params@[i as int]@);
            assert(forall|k: int| 0 <= k < i ==> terms@[k] == before[k]);
        }
        i = i + 1;
        assert(views(terms@) =~= views(params@).subrange(0, i as int));
    }
    let mut orgs = config.orgs();
    let ghost orgs_before = orgs@;
    let ghost front = terms@;
    terms.append(&mut orgs);
    proof {
        assert(views(front) =~= views(params@));
        assert(terms@ == front + orgs_before);
        assert(views(terms@) =~= query_terms(views(params@), *config));
    }
    join(&terms, " ")
}

/// The address of the first results page:
/// `<base>/search/code?q=<percent-encoded query text>`.
pub fn search_url(config: &Config, params: &[String]) -> (r: String)
    ensures
        r@ == search_url_of(views(params@), *config),
{
    let query = search_query(config, params);
    let encoded = url_encode(query.as_str());
    let base = config.url.clone();
    base.concat("/search/code?q=").concat(encoded.as_str())
}

/// The query lists every given term at its own position, in order, and
/// after them the qualifier of every default organisation, in order.
pub proof fn query_terms_then_scopes(params: Seq<Seq<char>>, config: Config)
    ensures
        query_terms(params, config).len() == params.len() + config.org_names().len(),
        forall|i: int| 0 <= i < params.len() ==> query_terms(params, config)[i] == params[i],
        forall|j: int|
            0 <= j < config.org_names().len() ==> query_terms(params, config)[params.len() + j]
                == org_qualifier(config.org_names()[j]),
{
}

} // verus!
