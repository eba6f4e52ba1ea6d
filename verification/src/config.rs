//! Session options, collected by the builder and frozen when an agent is
//! built.

use vstd::prelude::*;
use crate::addr::IpAddress;

verus! {

/// A STUN or TURN server the engine may use for reflexive or relayed
/// candidates.
#[derive(Clone, Debug)]
pub struct ServerRef {
    /// Host name or address text of the server; must not be empty.
    pub host: String,
    /// Port the server listens on.
    pub port: u16,
}

impl ServerRef {
    /// A server reference is well formed when its host is non-empty.
    pub open spec fn valid(self) -> bool {
        self.host@.len() > 0
    }
}

/// The options one agent is built with. Immutable once the agent exists.
#[derive(Clone, Debug)]
pub struct Configuration {
    /// Restrict local sockets to this address; `None` means any.
    pub bind_address: Option<IpAddress>,
    /// Restrict ephemeral port allocation to `(min, max)`; `None` means
    /// OS-assigned.
    pub port_range: Option<(u16, u16)>,
    /// STUN/TURN server to use, if any.
    pub server: Option<ServerRef>,
    /// Take the ICE-lite role instead of full ICE.
    pub lite: bool,
    /// The local credential text placed in this agent's description.
    pub local_credentials: String,
}

impl Configuration {
    /// A configuration is valid when its port range is neither inverted nor
    /// zero-width and any server reference is well formed.
    pub open spec fn valid(self) -> bool {
        &&& (self.port_range matches Some((min, max)) ==> min < max)
        &&& (self.server matches Some(s) ==> s.valid())
    }
}

} // verus!
