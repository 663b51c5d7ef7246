//! The networking mode of a container: one of the fixed modes, or a
//! reference to another service's or container's network.

use vstd::prelude::*;
use vstd::seq_lib::*;
use vstd::string::StrSliceExecFns;
use vstd::string::StringExecFns;

use crate::errors::InvalidValueError;
use crate::raw_or::InterpolatableValue;
use crate::text::chars_eq;
use crate::text::has_prefix;

verus! {

/// The characters of the fixed mode `bridge`.
pub open spec fn bridge_text() -> Seq<char> {
    seq!['b', 'r', 'i', 'd', 'g', 'e']
}

/// The characters of the fixed mode `host`.
pub open spec fn host_text() -> Seq<char> {
    seq!['h', 'o', 's', 't']
}

/// The characters of the fixed mode `none`.
pub open spec fn none_text() -> Seq<char> {
    seq!['n', 'o', 'n', 'e']
}

/// The prefix of the `service:NAME` form.
pub open spec fn service_prefix() -> Seq<char> {
    seq!['s', 'e', 'r', 'v', 'i', 'c', 'e', ':']
}

/// The prefix of the `container:NAME` form.
pub open spec fn container_prefix() -> Seq<char> {
    seq!['c', 'o', 'n', 't', 'a', 'i', 'n', 'e', 'r', ':']
}

/// `s` is one of the fixed modes, or a `service:`/`container:` form with
/// a nonempty name.
pub open spec fn network_mode_parsable(s: Seq<char>) -> bool {
    s == bridge_text() || s == host_text() || s == none_text() || (service_prefix().is_prefix_of(s)
        && s.len() > service_prefix().len()) || (container_prefix().is_prefix_of(s) && s.len()
        > container_prefix().len())
}

/// How a container is attached to a network: one of the fixed docker
/// modes, or the network of a named service or container.
#[derive(Debug, Clone, PartialEq, Eq)]
pub enum NetworkMode {
    /// The default bridge network.
    Bridge,
    /// The host's own network.
    Host,
    /// No networking.
    NoNetwork,
    /// The network of a named service, written `service:NAME`.
    Service(String),
    /// The network of a named container, written `container:NAME`.
    Container(String),
}

impl NetworkMode {
    /// Parse the textual form of a networking mode.
    pub fn from_str(s: &str) -> (r: Result<NetworkMode, InvalidValueError>)
        ensures
            r is Ok <==> network_mode_parsable(s@),
            r matches Ok(v) ==> match v {
                NetworkMode::Bridge => s@ == bridge_text(),
                NetworkMode::Host => s@ == host_text(),
                NetworkMode::NoNetwork => s@ == none_text(),
                NetworkMode::Service(name) => s@ == service_prefix() + name@ && name@.len() > 0,
                NetworkMode::Container(name) => s@ == container_prefix() + name@ && name@.len() > 0,
            },
    {
        let t_bridge = vec!['b', 'r', 'i', 'd', 'g', 'e'];
        let t_host = vec!['h', 'o', 's', 't'];
        let t_none = vec!['n', 'o', 'n', 'e'];
        let p_service = vec!['s', 'e', 'r', 'v', 'i', 'c', 'e', ':'];
        let p_container = vec!['c', 'o', 'n', 't', 'a', 'i', 'n', 'e', 'r', ':'];
        proof {
            assert(t_bridge@ =~= bridge_text());
            assert(t_host@ =~= host_text());
            assert(t_none@ =~= none_text());
            assert(p_service@ =~= service_prefix());
            assert(p_container@ =~= container_prefix());
        }
        let n = s.unicode_len();
        if chars_eq(s, &t_bridge) {
            Ok(NetworkMode::Bridge)
        } else if chars_eq(s, &t_host) {
            Ok(NetworkMode::Host)
        } else if chars_eq(s, &t_none) {
            Ok(NetworkMode::NoNetwork)
        } else if has_prefix(s, &p_service) && n > 8 {
            let rest = s.substring_char(8, n);
            proof {
                assert(service_prefix() + s@.skip(8) =~= s@);
            }
            Ok(NetworkMode::Service(String::from_str(rest)))
        } else if has_prefix(s, &p_container) && n > 10 {
            let rest = s.substring_char(10, n);
            proof {
                assert(container_prefix() + s@.skip(10) =~= s@);
            }
            Ok(NetworkMode::Container(String::from_str(rest)))
        } else {
            Err(InvalidValueError::new("network mode", s))
        }
    }
}

impl InterpolatableValue for NetworkMode {
    /// The grammar of networking modes.
    open spec fn spec_parsable(s: Seq<char>) -> bool {
        network_mode_parsable(s)
    }

    /// The textual form of this mode.
    open spec fn spec_format(&self) -> Seq<char> {
        match self {
            NetworkMode::Bridge => bridge_text(),
            NetworkMode::Host => host_text(),
            NetworkMode::NoNetwork => none_text(),
            NetworkMode::Service(name) => service_prefix() + name@,
            NetworkMode::Container(name) => container_prefix() + name@,
        }
    }

    fn parse_iv(s: &str) -> (r: Result<Self, InvalidValueError>) {
        NetworkMode::from_str(s)
    }

    fn format_iv(&self) -> (r: String) {
        match self {
            NetworkMode::Bridge => {
                let out = String::from_str("bridge");
                proof {
                    reveal_strlit("bridge");
                    assert("bridge"@ =~= bridge_text());
                }
                out
            },
            NetworkMode::Host => {
                let out = String::from_str("host");
                proof {
                    reveal_strlit("host");
                    assert("host"@ =~= host_text());
                }
                out
            },
            NetworkMode::NoNetwork => {
                let out = String::from_str("none");
                proof {
                    reveal_strlit("none");
                    assert("none"@ =~= none_text());
                }
                out
            },
            NetworkMode::Service(name) => {
                let mut out = String::from_str("service:");
                out.append(name.as_str());
                proof {
                    reveal_strlit("service:");
                    assert("service:"@ =~= service_prefix());
                }
                out
            },
            NetworkMode::Container(name) => {
                let mut out = String::from_str("container:");
                out.append(name.as_str());
                proof {
                    reveal_strlit("container:");
                    assert("container:"@ =~= container_prefix());
                }
                out
            },
        }
    }

    fn clone_iv(&self) -> (r: Self) {
        match self {
            NetworkMode::Bridge => NetworkMode::Bridge,
            NetworkMode::Host => NetworkMode::Host,
            NetworkMode::NoNetwork => NetworkMode::NoNetwork,
            NetworkMode::Service(name) => NetworkMode::Service(name.clone()),
            NetworkMode::Container(name) => NetworkMode::Container(name.clone()),
        }
    }
}

} // verus!
