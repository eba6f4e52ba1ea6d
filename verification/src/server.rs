//! A relay-capable helper role: a server that issues short-lived credentials
//! to peers that need relayed connectivity. Independent of any agent.

use vstd::prelude::*;
use crate::error::Error;

verus! {

/// A credentials entry the server hands to a relay-capable peer: an
/// identifier and a secret, with an optional lifetime in milliseconds.
#[derive(Clone, Debug)]
pub struct Credentials {
    pub username: String,
    pub password: String,
    pub lifetime_ms: Option<u64>,
}

impl Credentials {
    /// A credentials entry is well formed when its identifier is non-empty.
    pub open spec fn valid(self) -> bool {
        self.username@.len() > 0
    }
}

/// Collects the options of a relay server before it is started.
#[derive(Clone, Debug)]
pub struct Builder {
    /// The authentication realm; must not be empty.
    pub realm: String,
    /// The port the server listens on.
    pub port: u16,
}

impl Builder {
    /// A fresh builder: empty realm, and the customary relay port.
    pub fn new() -> (r: Builder)
        ensures
            r.realm@.len() == 0,
            r.port == 3478u16,
    {
        Builder { realm: String::new(), port: 3478 }
    }

    /// Set the authentication realm.
    pub fn with_realm(self, realm: String) -> (r: Builder)
        ensures
            r.realm == realm,
            r.port == self.port,
    {
        Builder { realm, port: self.port }
    }

    /// Set the listening port.
    pub fn with_port(self, port: u16) -> (r: Builder)
        ensures
            r.realm == self.realm,
            r.port == port,
    {
        Builder { realm: self.realm, port }
    }

    /// Start the server role. Fails with `ConfigurationError` exactly when
    /// the realm is empty; otherwise the server starts with no credentials
    /// issued yet.
    pub fn build(self) -> (r: Result<Server, Error>)
        ensures
            self.realm@.len() == 0 ==> r == Err::<Server, Error>(Error::ConfigurationError),
            self.realm@.len() > 0 ==> (r matches Ok(s) && s.realm == self.realm
                && s.port == self.port && s.issued@.len() == 0),
    {
        if self.realm.as_str().is_empty() {
            Err(Error::ConfigurationError)
        } else {
            Ok(Server { realm: self.realm, port: self.port, issued: Vec::new() })
        }
    }
}

/// A running relay server role: remembers its realm and the credentials it
/// has issued.
#[derive(Clone, Debug)]
pub struct Server {
    pub realm: String,
    pub port: u16,
    /// Every credentials entry issued so far, oldest first.
    pub issued: Vec<Credentials>,
}

impl Server {
    /// Every credentials entry this server has issued is well formed.
    pub open spec fn wf(self) -> bool {
        forall|i: int| 0 <= i < self.issued@.len() ==> (#[trigger] self.issued@[i]).valid()
    }

    /// Issue a credentials entry. Fails with `ConfigurationError` exactly
    /// when the identifier is empty; otherwise the entry is recorded and
    /// returned.
    pub fn issue_credentials(
        &mut self,
        username: String,
        password: String,
        lifetime_ms: Option<u64>,
    ) -> (r: Result<Credentials, Error>)
        requires
            old(self).wf(),
        ensures
            final(self).wf(),
            final(self).realm == old(self).realm,
            final(self).port == old(self).port,
            username@.len() == 0 ==> (r == Err::<Credentials, Error>(Error::ConfigurationError)
                && final(self).issued@ == old(self).issued@),
            username@.len() > 0 ==> (r matches Ok(c) && c.username == username
                && c.password == password && c.lifetime_ms == lifetime_ms
                && final(self).issued@ == old(self).issued@.push(c)),
    {
        if username.as_str().is_empty() {
            Err(Error::ConfigurationError)
        } else {
            let entry = Credentials { username, password, lifetime_ms };
            let copy = Credentials {
                username: entry.username.clone(),
                password: entry.password.clone(),
                lifetime_ms: entry.lifetime_ms,
            };
            self.issued.push(copy);
            Ok(entry)
        }
    }
}

} // verus!
