//! The name of an external resource together with an optional local
//! alias, written textually as `name` or `name:alias`.

use vstd::prelude::*;
use vstd::string::StrSliceExecFns;
use vstd::string::StringExecFns;

use crate::errors::InvalidValueError;
use crate::raw_or::InterpolatableValue;
use crate::text::str_contains_char;

verus! {

/// The index of the first colon in `s`, or `s.len()` if there is none.
pub open spec fn first_colon(s: Seq<char>) -> int
    decreases s.len(),
{
    if s.len() == 0 {
        0
    } else if s[0] == ':' {
        0
    } else {
        1 + first_colon(s.drop_first())
    }
}

/// The first colon lies within the sequence, marks an actual colon, and
/// nothing before it is a colon.
pub proof fn lemma_first_colon(s: Seq<char>)
    ensures
        0 <= first_colon(s) <= s.len(),
        first_colon(s) < s.len() ==> s[first_colon(s)] == ':',
        forall|k: int| 0 <= k < first_colon(s) ==> s[k] != ':',
    decreases s.len(),
{
    if s.len() > 0 && s[0] != ':' {
        lemma_first_colon(s.drop_first());
        assert forall|k: int| 0 <= k < first_colon(s) implies s[k] != ':' by {
            if k > 0 {
                assert(s.drop_first()[k - 1] != ':');
            }
        }
    }
}

/// `s` splits as `name` or `name:alias` with nonempty colon-free parts:
/// at most one colon may appear, and it may be neither the first nor the
/// last character.
pub open spec fn aliased_parsable(s: Seq<char>) -> bool {
    if first_colon(s) == s.len() {
        s.len() > 0
    } else {
        0 < first_colon(s) && first_colon(s) + 1 < s.len() && !s.skip(
            first_colon(s) + 1,
        ).contains(':')
    }
}

/// The index of the first colon in `s`, or the length of `s` if there is
/// none.
fn find_colon(s: &str) -> (j: usize)
    ensures
        j == first_colon(s@),
{
    let n = s.unicode_len();
    let mut j: usize = 0;
    proof {
        assert(s@.skip(0) =~= s@);
    }
    while j < n
        invariant
            j <= n,
            n == s@.len(),
            first_colon(s@) == j + first_colon(s@.skip(j as int)),
        decreases n - j,
    {
        proof {
            assert(s@.skip(j as int)[0] == s@[j as int]);
            assert(s@.skip(j as int).drop_first() =~= s@.skip(j as int + 1));
        }
        if s.get_char(j) == ':' {
            return j;
        }
        j = j + 1;
    }
    proof {
        assert(s@.skip(n as int) =~= Seq::<char>::empty());
    }
    j
}

/// The name of an external resource, and an optional local alias to which
/// it is mapped inside a container.  Both parts are colon-free, since the
/// colon is the reserved delimiter of the textual form.
#[derive(Debug, Clone, PartialEq, Eq)]
pub struct AliasedName {
    name: String,
    alias: Option<String>,
}

impl AliasedName {
    /// The external name.
    pub closed spec fn spec_name(&self) -> Seq<char> {
        self.name@
    }

    /// The optional alias.
    pub closed spec fn spec_alias(&self) -> Option<Seq<char>> {
        match self.alias {
            Some(a) => Some(a@),
            None => None,
        }
    }

    /// Both parts are free of the reserved colon, so the textual form is
    /// unambiguous.
    pub open spec fn spec_valid(&self) -> bool {
        !self.spec_name().contains(':') && (match self.spec_alias() {
            Some(a) => !a.contains(':'),
            None => true,
        })
    }

    /// Check that this aliased name can be serialized unambiguously:
    /// neither part may contain the reserved colon.
    pub fn validate(&self) -> (r: Result<(), InvalidValueError>)
        ensures
            r is Ok <==> self.spec_valid(),
    {
        let bad_name = str_contains_char(self.name.as_str(), ':');
        let bad_alias = match &self.alias {
            Some(a) => str_contains_char(a.as_str(), ':'),
            None => false,
        };
        if bad_name || bad_alias {
            let shown = self.format_iv();
            return Err(InvalidValueError::new("aliased name", shown.as_str()));
        }
        Ok(())
    }

    /// Create a new `AliasedName` from a name and an optional alias,
    /// refusing either part if it contains the reserved colon.
    pub fn new(name: &str, alias: Option<&str>) -> (r: Result<AliasedName, InvalidValueError>)
        ensures
            r is Ok <==> (!name@.contains(':') && (match alias {
                Some(a) => !a@.contains(':'),
                None => true,
            })),
            r matches Ok(v) ==> v.spec_name() == name@ && v.spec_alias() == (match alias {
                Some(a) => Some(a@),
                None => None::<Seq<char>>,
            }),
    {
        let result = AliasedName {
            name: String::from_str(name),
            alias: match alias {
                Some(a) => Some(String::from_str(a)),
                None => None,
            },
        };
        match result.validate() {
            Ok(_) => Ok(result),
            Err(e) => Err(e),
        }
    }

    /// Parse the textual form: everything before the first colon is the
    /// name, everything after it the alias.  A missing alias part or a
    /// second colon anywhere makes the input ambiguous and is refused.
    pub fn from_str(s: &str) -> (r: Result<AliasedName, InvalidValueError>)
        ensures
            r is Ok <==> aliased_parsable(s@),
            r matches Ok(v) ==> ({
                let i = first_colon(s@);
                v.spec_name() == s@.take(i) && (if i == s@.len() {
                    v.spec_alias() is None
                } else {
                    v.spec_alias() == Some(s@.skip(i + 1))
                })
            }),
    {
        proof {
            lemma_first_colon(s@);
        }
        let n = s.unicode_len();
        let j = find_colon(s);
        if j == n {
            if n == 0 {
                return Err(InvalidValueError::new("aliased name", s));
            }
            proof {
                assert(s@.take(first_colon(s@)) =~= s@);
            }
            Ok(AliasedName { name: String::from_str(s), alias: None })
        } else {
            if j == 0 {
                return Err(InvalidValueError::new("aliased name", s));
            }
            if j + 1 >= n {
                return Err(InvalidValueError::new("aliased name", s));
            }
            let alias_part = s.substring_char(j + 1, n);
            proof {
                assert(alias_part@ =~= s@.skip(j as int + 1));
            }
            if str_contains_char(alias_part, ':') {
                return Err(InvalidValueError::new("aliased name", s));
            }
            let name_part = s.substring_char(0, j);
            proof {
                assert(name_part@ =~= s@.take(j as int));
            }
            Ok(
                AliasedName {
                    name: String::from_str(name_part),
                    alias: Some(String::from_str(alias_part)),
                },
            )
        }
    }

    /// The external name.
    pub fn name(&self) -> (r: &String)
        ensures
            r@ == self.spec_name(),
    {
        &self.name
    }

    /// The optional alias.
    pub fn alias(&self) -> (r: &Option<String>)
        ensures
            match r {
                Some(a) => self.spec_alias() == Some(a@),
                None => self.spec_alias() is None,
            },
    {
        &self.alias
    }
}

impl InterpolatableValue for AliasedName {
    /// The textual form must split as `name` or `name:alias`.
    open spec fn spec_parsable(s: Seq<char>) -> bool {
        aliased_parsable(s)
    }

    /// `name` alone, or `name:alias` when an alias is present.
    open spec fn spec_format(&self) -> Seq<char> {
        match self.spec_alias() {
            Some(a) => self.spec_name() + seq![':'] + a,
            None => self.spec_name(),
        }
    }

    fn parse_iv(s: &str) -> (r: Result<Self, InvalidValueError>) {
        let r = AliasedName::from_str(s);
        proof {
            lemma_first_colon(s@);
            if r is Ok {
                let i = first_colon(s@);
                if i == s@.len() {
                    assert(s@.take(i) =~= s@);
                } else {
                    assert(s@.take(i) + seq![':'] + s@.skip(i + 1) =~= s@);
                }
            }
        }
        r
    }

    fn format_iv(&self) -> (r: String) {
        let mut out = self.name.clone();
        match &self.alias {
            Some(a) => {
                out.append(":");
                out.append(a.as_str());
                proof {
                    reveal_strlit(":");
                    assert(":"@ =~= seq![':']);
                }
            },
            None => {},
        }
        out
    }

    fn clone_iv(&self) -> (r: Self) {
        AliasedName {
            name: self.name.clone(),
            alias: match &self.alias {
                Some(a) => Some(a.clone()),
                None => None,
            },
        }
    }
}

} // verus!
