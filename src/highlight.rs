//! Case-insensitive highlighting of the search terms in fragment text.

use vstd::prelude::*;
use vstd::string::*;
use crate::error::SearchError;
use crate::text::{join, join_with, split_char, split_on, views};

verus! {

#[verifier::external_type_specification]
#[verifier::external_body]
pub struct ExRegex(regex::Regex);

/// What `regex::escape` gives for a text.
pub uninterp spec fn regex_escaped(s: Seq<char>) -> Seq<char>;

/// Whether `regex::Regex::new` accepts a pattern.
pub uninterp spec fn regex_compiles(pattern: Seq<char>) -> bool;

/// What `replace_all` of the regex built from `pattern` gives for `text`
/// and the replacement template `replacement`.
pub uninterp spec fn regex_replaced(
    pattern: Seq<char>,
    text: Seq<char>,
    replacement: Seq<char>,
) -> Seq<char>;

/// Each term escaped.
pub open spec fn escaped_terms(terms: Seq<Seq<char>>) -> Seq<Seq<char>> {
    terms.map_values(|t: Seq<char>| regex_escaped(t))
}

/// Each line with the terms' matches replaced.
pub open spec fn highlighted_lines(
    pattern: Seq<char>,
    lines: Seq<Seq<char>>,
    replacement: Seq<char>,
) -> Seq<Seq<char>> {
    lines.map_values(|l: Seq<char>| regex_replaced(pattern, l, replacement))
}

/// The case-insensitive alternation of the escaped terms, as one group.
pub open spec fn term_pattern(terms: Seq<Seq<char>>) -> Seq<char> {
    "(?i)("@ + join_with(escaped_terms(terms), "|"@) + ")"@
}

/// A fragment rendered line by line: each line highlighted, the first
/// preceded by `marker`, the others by a line break and `marker`.
pub open spec fn fragment_text(
    pattern: Seq<char>,
    fragment: Seq<char>,
    replacement: Seq<char>,
    marker: Seq<char>,
) -> Seq<char> {
    marked_lines(highlighted_lines(pattern, split_on(fragment, '\n'), replacement), marker)
}

/// Lines joined behind a continuation marker.
pub open spec fn marked_lines(lines: Seq<Seq<char>>, marker: Seq<char>) -> Seq<char> {
    marker + join_with(lines, seq!['\n'] + marker)
}

/// A compiled regular expression that matches any of the search terms,
/// built once and used for every fragment.
pub struct TermMatcher {
    regex: regex::Regex,
    pattern: String,
}

/// Relies on regex::escape: the escaped text depends on the text alone.
#[verifier::external_body]
fn escape_term(s: &str) -> (r: String)
    ensures
        r@ == regex_escaped(s@),
{
    regex::escape(s)
}

/// Relies on regex::Regex::new: whether it accepts a pattern depends on the
/// pattern alone; the regex returned is kept with the pattern it came from.
#[verifier::external_body]
fn compile(pattern: String) -> (r: Option<TermMatcher>)
    ensures
        r is Some == regex_compiles(pattern@),
        r matches Some(m) ==> m.pattern() == pattern@,
{
    match regex::Regex::new(&pattern) {
        Ok(regex) => Some(TermMatcher { regex, pattern }),
        Err(_) => None,
    }
}

/// Relies on regex::Regex::replace_all: the result depends on the pattern,
/// the text and the replacement template alone.
#[verifier::external_body]
fn replace_matches(m: &TermMatcher, text: &str, replacement: &str) -> (r: String)
    ensures
        r@ == regex_replaced(m.pattern(), text@, replacement@),
{
    m.regex.replace_all(text, replacement).into_owned()
}

/// Joins already highlighted lines: `marker` before the first, a line break
/// and `marker` before each other.
pub fn join_marked_lines(lines: &Vec<String>, marker: &str) -> (r: String)
    ensures
        r@ == marked_lines(views(lines@), marker@),
{
    let mut sep = String::from_str("\n");
    proof {
        reveal_strlit("\n");
        assert("\n"@ =~= seq!['\n']);
    }
    sep.append(marker);
    let body = join(lines, sep.as_str());
    String::from_str(marker).concat(body.as_str())
}

impl TermMatcher {
    /// The pattern the regex was built from.
    pub closed spec fn pattern(&self) -> Seq<char> {
        self.pattern@
    }

    /// Builds `(?i)(t1|t2|...)` from the escaped terms, in order.
    /// Fails with `InvalidPattern` exactly when the regex engine refuses it.
    pub fn new(terms: &[String]) -> (r: Result<TermMatcher, SearchError>)
        ensures
            r is Ok == regex_compiles(term_pattern(views(terms@))),
            r matches Ok(m) ==> m.pattern() == term_pattern(views(terms@)),
            r matches Err(e) ==> e == SearchError::InvalidPattern,
    {
        let mut escaped: Vec<String> = Vec::new();
        let mut i: usize = 0;
        while i < terms.len()
            invariant
                i <= terms@.len(),
                escaped@.len() == i,
                forall|k: int| 0 <= k < i ==> #[trigger] escaped@[k]@ == regex_escaped(terms@[k]@),
            decreases terms@.len() - i,
        {
            let e = escape_term(terms[i].as_str());
            let ghost before = escaped@;
            escaped.push(e);
            proof {
                assert(forall|k: int| 0 <= k < i ==> escaped@[k] == before[k]);
                assert(escaped@[i as int]@ == regex_escaped(terms@[i as int]@));
            }
            i = i + 1;
        }
        assert(views(escaped@) =~= escaped_terms(views(terms@)));
        let alternation = join(&escaped, "|");
        let pattern = String::from_str("(?i)(").concat(alternation.as_str()).concat(")");
        match compile(pattern) {
            Some(m) => Ok(m),
            None => Err(SearchError::InvalidPattern),
        }
    }

    /// The line with every match of the terms replaced by the template
    /// `replacement` (`$1` stands for the matched text).
    pub fn highlight(&self, line: &str, replacement: &str) -> (r: String)
        ensures
            r@ == regex_replaced(self.pattern(), line@, replacement@),
    {
        replace_matches(self, line, replacement)
    }

    /// Renders a fragment: each line highlighted on its own, then the lines
    /// joined behind `marker`, never with a bare line break.
    pub fn render_fragment(&self, fragment: &str, replacement: &str, marker: &str) -> (r: String)
        ensures
            r@ == fragment_text(self.pattern(), fragment@, replacement@, marker@),
    {
        let lines = split_char(fragment, '\n');
        let mut out: Vec<String> = Vec::new();
        let mut i: usize = 0;
        while i < lines.len()
            invariant
                i <= lines@.len(),
                out@.len() == i,
                views(lines@) == split_on(fragment@, '\n'),
                forall|k: int|
                    0 <= k < i ==> #[trigger] out@[k]@ == regex_replaced(
                        self.pattern(),
                        lines@[k]@,
                        replacement@,
                    ),
            decreases lines@.len() - i,
        {
            let h = self.highlight(lines[i].as_str(), replacement);
            let ghost before = out@;
            out.push(h);
            proof {
                assert(forall|k: int| 0 <= k < i ==> out@[k] == before[k]);
                assert(out@[i as int]@ == regex_replaced(
                    self.pattern(),
                    lines@[i as int]@,
                    replacement@,
                ));
            }
            i = i + 1;
        }
        assert(views(out@) =~= highlighted_lines(self.pattern(), views(lines@), replacement@));
        join_marked_lines(&out, marker)
    }
}

} // verus!
