use gsv::config::{Config, ConfigDefaults};
use gsv::error::SearchError;
use gsv::highlight::{join_marked_lines, TermMatcher};
use gsv::link::{entry_next_link, next_link};
use gsv::pager::{page_step, request_headers};
use gsv::query::{search_query, search_url};
use gsv::render::{render_header, render_matches, SearchResultItem, TextMatch};
use gsv::text::{join, split_char, trim_str};

fn strings(v: &[&str]) -> Vec<String> {
    v.iter().map(|s| s.to_string()).collect()
}

fn config_with_orgs(orgs: Option<Vec<String>>) -> Config {
    Config {
        url: Config::default_url(),
        username: Some("u".to_string()),
        token: Some("t".to_string()),
        defaults: Some(ConfigDefaults { orgs }),
    }
}

#[test]
fn split_keeps_empty_pieces() {
    assert_eq!(split_char("a,,b,", ','), strings(&["a", "", "b", ""]));
    assert_eq!(split_char("", ','), strings(&[""]));
    assert_eq!(split_char("no separator", ','), strings(&["no separator"]));
}

#[test]
fn trim_removes_outer_white_space() {
    assert_eq!(trim_str("  \t<x> \n"), "<x>");
    assert_eq!(trim_str("\u{3000}a b\u{a0}"), "a b");
    assert_eq!(trim_str("   "), "");
}

#[test]
fn join_puts_separator_between() {
    assert_eq!(join(&strings(&["a", "b", "c"]), ", "), "a, b, c");
    assert_eq!(join(&strings(&["one"]), "|"), "one");
    assert_eq!(join(&Vec::new(), "|"), "");
}

#[test]
fn default_url_is_github_api() {
    assert_eq!(Config::default_url(), "https://api.github.com");
    let c = Config::empty();
    assert_eq!(c.url, "https://api.github.com");
    assert!(!c.has_credentials());
}

#[test]
fn credentials_need_user_and_token() {
    let mut c = Config::empty();
    c.token = Some("t".to_string());
    assert!(!c.has_credentials());
    c.username = Some("u".to_string());
    assert!(c.has_credentials());
}

#[test]
fn orgs_empty_without_defaults() {
    assert!(Config::empty().orgs().is_empty());
    assert!(config_with_orgs(None).orgs().is_empty());
    assert!(config_with_orgs(Some(Vec::new())).orgs().is_empty());
}

#[test]
fn orgs_become_qualifiers_in_order() {
    let c = config_with_orgs(Some(strings(&["foo", "bar"])));
    assert_eq!(c.orgs(), strings(&["org:foo", "org:bar"]));
    let d = config_with_orgs(Some(strings(&["x", "x"])));
    assert_eq!(d.orgs(), strings(&["org:x", "org:x"]));
}

#[test]
fn query_puts_terms_before_scopes() {
    let c = config_with_orgs(Some(strings(&["acme", "beta"])));
    let q = search_query(&c, &strings(&["foo bar", "baz"]));
    assert_eq!(q, "foo bar baz org:acme org:beta");
    assert_eq!(search_query(&Config::empty(), &strings(&["x"])), "x");
}

#[test]
fn search_url_percent_encodes_query() {
    let c = config_with_orgs(Some(strings(&["acme"])));
    let u = search_url(&c, &strings(&["foo bar", "baz"]));
    assert_eq!(u, "https://api.github.com/search/code?q=foo%20bar%20baz%20org%3Aacme");
}

#[test]
fn search_url_keeps_unreserved_and_encodes_utf8() {
    let c = Config::empty();
    let u = search_url(&c, &strings(&["a-b_c.d~e", "é"]));
    assert_eq!(u, "https://api.github.com/search/code?q=a-b_c.d~e%20%C3%A9");
}

#[test]
fn regex_highlights_both_terms_case_insensitively() {
    let m = TermMatcher::new(&strings(&["cat", "dog"])).unwrap();
    assert_eq!(m.highlight("Cats are DOGS", "[$1]"), "[Cat]s are [DOG]S");
    assert_eq!(m.highlight("nothing here", "[$1]"), "nothing here");
}

#[test]
fn regex_terms_are_literal() {
    let m = TermMatcher::new(&strings(&["a.b", "(x)"])).unwrap();
    assert_eq!(m.highlight("a.b axb (x) x", "<$1>"), "<a.b> axb <(x)> x");
}

#[test]
fn too_large_pattern_is_refused() {
    let huge = "a".repeat(2_000_000);
    let r = TermMatcher::new(&[huge]);
    assert!(matches!(r, Err(SearchError::InvalidPattern)));
}

#[test]
fn fragment_lines_are_highlighted_and_marked() {
    let m = TermMatcher::new(&strings(&["cat"])).unwrap();
    let r = m.render_fragment("line one\nline two with cat", "<$1>", "...");
    assert_eq!(r, "...line one\n...line two with <cat>");
}

#[test]
fn marked_lines_join() {
    assert_eq!(join_marked_lines(&strings(&["a", "b"]), ">"), ">a\n>b");
    assert_eq!(join_marked_lines(&strings(&["only"]), "..."), "...only");
}

#[test]
fn link_with_next_gives_address() {
    let r = next_link("<https://api.example.com/page2>; rel=\"next\"");
    assert_eq!(r, Some("https://api.example.com/page2".to_string()));
}

#[test]
fn link_with_only_prev_gives_none() {
    assert_eq!(next_link("<https://api.example.com/page1>; rel=\"prev\""), None);
}

#[test]
fn link_next_among_several_entries() {
    let h = "<https://api.github.com/search/code?q=x&page=1>; rel=\"prev\", \
             <https://api.github.com/search/code?q=x&page=3>; rel=\"next\", \
             <https://api.github.com/search/code?q=x&page=9>; rel=\"last\"";
    assert_eq!(
        next_link(h),
        Some("https://api.github.com/search/code?q=x&page=3".to_string())
    );
}

#[test]
fn link_entry_without_closing_bracket_is_skipped() {
    assert_eq!(entry_next_link("https://a/b; rel=\"next\""), None);
    assert_eq!(entry_next_link(">; rel=\"next\""), None);
    assert_eq!(next_link(""), None);
    assert_eq!(entry_next_link(" <u>; rel=\"next\""), Some("u".to_string()));
}

#[test]
fn link_relation_must_match_exactly() {
    assert_eq!(next_link("<https://a/2>;rel=\"next\""), None);
    assert_eq!(next_link("<https://a/2>; rel=\"nextish\""), None);
}

#[test]
fn status_other_than_ok_fails() {
    let r = page_step(404, Some("<https://a/2>; rel=\"next\""));
    assert_eq!(r, Err(SearchError::UnexpectedStatus(404)));
    assert_eq!(page_step(500, None), Err(SearchError::UnexpectedStatus(500)));
}

#[test]
fn ok_status_follows_link() {
    assert_eq!(
        page_step(200, Some("<https://a/2>; rel=\"next\"")),
        Ok(Some("https://a/2".to_string()))
    );
    assert_eq!(page_step(200, Some("<https://a/1>; rel=\"prev\"")), Ok(None));
    assert_eq!(page_step(200, None), Ok(None));
}

#[test]
fn headers_carry_token() {
    let c = config_with_orgs(None);
    let h = request_headers(&c).unwrap();
    assert_eq!(h.len(), 3);
    assert_eq!(h[0], ("user-agent".to_string(), "gsv (github search vehicle)".to_string()));
    assert_eq!(
        h[1],
        ("accept".to_string(), "application/vnd.github.v3.text-match+json".to_string())
    );
    assert_eq!(h[2], ("authorization".to_string(), "token t".to_string()));
    assert!(request_headers(&Config::empty()).is_none());
}

#[test]
fn header_line_shows_three_fields() {
    assert_eq!(render_header("o/r", "src/a.rs", "abc123"), "o/r src/a.rs (abc123):");
}

#[test]
fn missing_text_matches_fail() {
    let m = TermMatcher::new(&strings(&["foo"])).unwrap();
    let item = SearchResultItem {
        repository: "o/r".to_string(),
        path: "p".to_string(),
        sha: "s".to_string(),
        text_matches: None,
    };
    assert_eq!(render_matches(&m, &item, "<$1>", "..."), Err(SearchError::MissingTextMatches));
}

#[test]
fn single_page_search_renders_and_stops() {
    let c = Config {
        url: Config::default_url(),
        username: Some("u".to_string()),
        token: Some("t".to_string()),
        defaults: None,
    };
    assert!(c.has_credentials());
    let terms = strings(&["foo"]);
    assert_eq!(search_url(&c, &terms), "https://api.github.com/search/code?q=foo");
    let m = TermMatcher::new(&terms).unwrap();
    let next = page_step(200, None);
    assert_eq!(next, Ok(None));
    let item = SearchResultItem {
        repository: "owner/repo".to_string(),
        path: "src/lib.rs".to_string(),
        sha: "deadbeef".to_string(),
        text_matches: Some(vec![TextMatch { fragment: "see foo here".to_string() }]),
    };
    assert_eq!(
        render_header(&item.repository, &item.path, &item.sha),
        "owner/repo src/lib.rs (deadbeef):"
    );
    let out = render_matches(&m, &item, "<$1>", "...").unwrap();
    assert_eq!(out, strings(&["...see <foo> here"]));
}
