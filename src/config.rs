//! The client's configuration: API address, credentials and default scopes.

use vstd::prelude::*;
use vstd::string::*;
use crate::text::views;

verus! {

/// Defaults applied to every search.
pub struct ConfigDefaults {
    /// Organisations that every search is narrowed to.
    pub orgs: Option<Vec<String>>,
}

/// The client's configuration.
pub struct Config {
    /// Base address of the search API.
    pub url: String,
    pub username: Option<String>,
    pub token: Option<String>,
    pub defaults: Option<ConfigDefaults>,
}

/// The base address used when the configuration names none.
pub open spec fn default_url_text() -> Seq<char> {
    "https://api.github.com"@
}

/// The scope qualifier that narrows a search to one organisation.
pub open spec fn org_qualifier(name: Seq<char>) -> Seq<char> {
    "org:"@ + name
}

impl Config {
    /// The configured default organisation names, empty when there are none.
    pub open spec fn org_names(&self) -> Seq<Seq<char>> {
        match self.defaults {
            Some(d) => match d.orgs {
                Some(o) => views(o@),
                None => Seq::empty(),
            },
            None => Seq::empty(),
        }
    }

    /// The scope qualifiers for the default organisations, in their order.
    pub open spec fn org_qualifiers(&self) -> Seq<Seq<char>> {
        self.org_names().map_values(|n: Seq<char>| org_qualifier(n))
    }

    /// The base address used when the configuration names none.
    pub fn default_url() -> (r: String)
        ensures
            r@ == default_url_text(),
    {
        String::from_str("https://api.github.com")
    }

    /// A configuration with the default address and nothing else set.
    pub fn empty() -> (r: Config)
        ensures
            r.url@ == default_url_text(),
            r.username is None,
            r.token is None,
            r.defaults is None,
    {
        Config { url: Config::default_url(), username: None, token: None, defaults: None }
    }

    /// Whether both a user name and a token are set; a search needs both.
    pub fn has_credentials(&self) -> (r: bool)
        ensures
            r == (self.username is Some && self.token is Some),
    {
        self.username.is_some() && self.token.is_some()
    }

    /// `org:<name>` for each default organisation, in order, without dedup;
    /// empty when no defaults or no organisations are configured.
    pub fn orgs(&self) -> (r: Vec<String>)
        ensures
            views(r@) == self.org_qualifiers(),
    {
        let mut r: Vec<String> = Vec::new();
        match &self.defaults {
            None => {
                assert(views(r@) =~= self.org_qualifiers());
            },
            Some(d) => match &d.orgs {
                None => {
                    assert(views(r@) =~= self.org_qualifiers());
                },
                Some(names) => {
                    let mut i: usize = 0;
                    while i < names.len()
                        invariant
                            i <= names@.len(),
                            r@.len() == i,
                            self.org_names() == views(names@),
                            views(r@) == self.org_qualifiers().subrange(0, i as int),
                        decreases names@.len() - i,
                    {
                        let q = String::from_str("org:").concat(names[i].as_str());
                        let ghost before = r@;
                        r.push(q);
                        proof {
                            assert(r@[i as int]@ == org_qualifier(self.org_names()[i as int]));
                            assert(forall|k: int| 0 <= k < i ==> r@[k] == before[k]);
                        }
                        i = i + 1;
                        assert(views(r@) =~= self.org_qualifiers().subrange(0, i as int));
                    }
                    assert(views(r@) =~= self.org_qualifiers());
                },
            },
        }
        r
    }
}

/// A configuration without defaults, or without organisations among them,
/// or with an empty organisation list, adds no scope qualifiers.
pub proof fn orgs_empty_without_defaults(c: Config)
    requires
        c.defaults is None || c.defaults->0.orgs is None || c.defaults->0.orgs->0@.len() == 0,
    ensures
        c.org_qualifiers() == Seq::<Seq<char>>::empty(),
{
    assert(c.org_qualifiers() =~= Seq::<Seq<char>>::empty());
}

} // verus!
