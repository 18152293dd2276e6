//! Value types of the connection-forwarding header: the target port, an
//! optional hostname for gateway forwarding, and the session protocol, when
//! one is known.

use vstd::prelude::*;

pub mod session_protocol;

verus! {

use crate::strutil::str_eq;
use crate::transport::session_protocol::Kind;

/// A session protocol of a forwarded connection, if one is known. When no
/// protocol is specified, the connection is handled opaquely.
#[derive(Clone, Copy, Debug)]
pub struct SessionProtocol {
    pub kind: Option<Kind>,
}

/// A connection-forwarding header.
#[derive(Clone, Debug)]
pub struct Header {
    /// The target port.
    pub port: i32,
    /// An optional hostname. Intended for gateway forwarding.
    pub name: String,
    /// The session protocol, if one is known.
    pub session_protocol: Option<SessionProtocol>,
}

impl PartialEq for SessionProtocol {
    fn eq(&self, other: &Self) -> (r: bool) {
        match (self.kind, other.kind) {
            (None, None) => true,
            (Some(Kind::Http1(a)), Some(Kind::Http1(b))) => {
                proof {
                    assert(a == b);
                }
                true
            },
            (Some(Kind::Http2(a)), Some(Kind::Http2(b))) => {
                proof {
                    assert(a == b);
                }
                true
            },
            _ => false,
        }
    }
}

impl vstd::std_specs::cmp::PartialEqSpecImpl for SessionProtocol {
    open spec fn obeys_eq_spec() -> bool {
        true
    }

    open spec fn eq_spec(&self, other: &SessionProtocol) -> bool {
        self.kind == other.kind
    }
}

impl PartialEq for Header {
    fn eq(&self, other: &Self) -> (r: bool) {
        let sp_eq = match (&self.session_protocol, &other.session_protocol) {
            (None, None) => true,
            (Some(a), Some(b)) => a.eq(b),
            _ => false,
        };
        self.port == other.port && str_eq(self.name.as_str(), other.name.as_str()) && sp_eq
    }
}

impl vstd::std_specs::cmp::PartialEqSpecImpl for Header {
    open spec fn obeys_eq_spec() -> bool {
        true
    }

    open spec fn eq_spec(&self, other: &Header) -> bool {
        &&& self.port == other.port
        &&& self.name@ == other.name@
        &&& self.session_protocol == other.session_protocol
    }
}

impl Default for Header {
    /// The header of an opaque connection to port 0 with no hostname.
    fn default() -> (r: Self)
        ensures
            r.port == 0,
            r.name@.len() == 0,
            r.session_protocol is None,
    {
        proof {
            reveal_strlit("");
        }
        Header { port: 0, name: "".to_owned(), session_protocol: None }
    }
}

impl Default for SessionProtocol {
    /// An unspecified session protocol.
    fn default() -> (r: Self)
        ensures
            r.kind is None,
    {
        SessionProtocol { kind: None }
    }
}

} // verus!
