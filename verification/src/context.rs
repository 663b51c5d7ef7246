//! The build context of an image: either a local directory path or a
//! Git-format repository locator (not necessarily a real URL).

use vstd::prelude::*;
use vstd::seq_lib::*;
use vstd::string::StringExecFns;

use crate::errors::InvalidValueError;
use crate::raw_or::InterpolatableValue;
use crate::text::has_prefix;

verus! {

/// A Git repository locator, written in any of the usual git repository
/// syntaxes: a `git://`, `http://` or `https://` URL, an SCP-like
/// `git@host:path` form, or a bare `github.com/...` path.
#[derive(Debug, Clone, PartialEq, Eq)]
pub struct GitUrl {
    url: String,
}

impl GitUrl {
    /// The locator's textual form.
    pub closed spec fn spec_url(&self) -> Seq<char> {
        self.url@
    }

    /// The classification heuristic: `s` looks like a Git repository
    /// locator when it starts with one of the well-known locator
    /// prefixes.  Every string is classified, one way or the other.
    pub open spec fn spec_should_treat_as_url(s: Seq<char>) -> bool {
        seq!['g', 'i', 't', ':', '/', '/'].is_prefix_of(s) || seq!['g', 'i', 't', '@'].is_prefix_of(
            s,
        ) || seq!['g', 'i', 't', 'h', 'u', 'b', '.', 'c', 'o', 'm', '/'].is_prefix_of(s)
            || seq!['h', 't', 't', 'p', ':', '/', '/'].is_prefix_of(s) || seq![
            'h',
            't',
            't',
            'p',
            's',
            ':',
            '/',
            '/',
        ].is_prefix_of(s)
    }

    /// Decide whether `s` should be treated as a Git repository locator
    /// rather than a local path.
    pub fn should_treat_as_url(s: &str) -> (b: bool)
        ensures
            b == Self::spec_should_treat_as_url(s@),
    {
        let p_git = vec!['g', 'i', 't', ':', '/', '/'];
        let p_at = vec!['g', 'i', 't', '@'];
        let p_hub = vec!['g', 'i', 't', 'h', 'u', 'b', '.', 'c', 'o', 'm', '/'];
        let p_http = vec!['h', 't', 't', 'p', ':', '/', '/'];
        let p_https = vec!['h', 't', 't', 'p', 's', ':', '/', '/'];
        proof {
            assert(p_git@ =~= seq!['g', 'i', 't', ':', '/', '/']);
            assert(p_at@ =~= seq!['g', 'i', 't', '@']);
            assert(p_hub@ =~= seq!['g', 'i', 't', 'h', 'u', 'b', '.', 'c', 'o', 'm', '/']);
            assert(p_http@ =~= seq!['h', 't', 't', 'p', ':', '/', '/']);
            assert(p_https@ =~= seq!['h', 't', 't', 'p', 's', ':', '/', '/']);
        }
        has_prefix(s, &p_git) || has_prefix(s, &p_at) || has_prefix(s, &p_hub) || has_prefix(
            s,
            &p_http,
        ) || has_prefix(s, &p_https)
    }

    /// Wrap a locator string, refusing one that does not match any known
    /// locator syntax.
    pub fn new(url: &str) -> (r: Result<GitUrl, InvalidValueError>)
        ensures
            r is Ok <==> Self::spec_should_treat_as_url(url@),
            r matches Ok(g) ==> g.spec_url() == url@,
    {
        if Self::should_treat_as_url(url) {
            Ok(GitUrl { url: String::from_str(url) })
        } else {
            Err(InvalidValueError::new("git URL", url))
        }
    }

    /// The locator's textual form.
    pub fn to_url_string(&self) -> (r: String)
        ensures
            r@ == self.spec_url(),
    {
        self.url.clone()
    }
}

/// Either a local directory path or a Git repository locator.
/// Classification never fails: every string lands in exactly one of the
/// two variants.
#[derive(Debug, Clone, PartialEq, Eq)]
pub enum Context {
    /// A regular local directory.
    Dir(String),
    /// A Git repository, in any of the usual git repository syntaxes.
    GitUrl(GitUrl),
}

impl Context {
    /// Construct a new `Context` from a string, classifying it as either
    /// a local path or a remote git repository.
    pub fn new(s: &str) -> (c: Context)
        ensures
            GitUrl::spec_should_treat_as_url(s@) ==> (c matches Context::GitUrl(g) && g.spec_url()
                == s@),
            !GitUrl::spec_should_treat_as_url(s@) ==> (c matches Context::Dir(d) && d@ == s@),
    {
        if GitUrl::should_treat_as_url(s) {
            match GitUrl::new(s) {
                Ok(g) => Context::GitUrl(g),
                Err(_) => {
                    proof {
                        assert(false);
                    }
                    Context::Dir(String::from_str(s))
                },
            }
        } else {
            Context::Dir(String::from_str(s))
        }
    }
}

impl InterpolatableValue for Context {
    /// Classification never fails, so every string parses.
    open spec fn spec_parsable(s: Seq<char>) -> bool {
        true
    }

    /// Both variants render as the string they were built from.
    open spec fn spec_format(&self) -> Seq<char> {
        match self {
            Context::Dir(d) => d@,
            Context::GitUrl(g) => g.spec_url(),
        }
    }

    fn parse_iv(s: &str) -> (r: Result<Self, InvalidValueError>) {
        Ok(Context::new(s))
    }

    fn format_iv(&self) -> (r: String) {
        match self {
            Context::Dir(d) => d.clone(),
            Context::GitUrl(g) => g.to_url_string(),
        }
    }

    fn clone_iv(&self) -> (r: Self) {
        match self {
            Context::Dir(d) => Context::Dir(d.clone()),
            Context::GitUrl(g) => Context::GitUrl(GitUrl { url: g.url.clone() }),
        }
    }
}

} // verus!
