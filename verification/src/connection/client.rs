//! The address of the engine a client connects to.

use vstd::prelude::*;
use crate::text::{decimal, push_decimal};

verus! {

/// A client of an engine at a host and port.
pub struct Client {
    host: String,
    port: u16,
}

impl Client {
    /// A client of the engine at `host` and `port`.
    pub fn new(host: &str, port: u16) -> (r: Client)
        ensures
            r.spec_host() == host@,
            r.spec_port() == port,
    {
        Client { host: String::from_str(host), port }
    }

    /// The host, as a specification value.
    pub closed spec fn spec_host(&self) -> Seq<char> {
        self.host@
    }

    /// The port, as a specification value.
    pub closed spec fn spec_port(&self) -> u16 {
        self.port
    }

    /// The host.
    pub fn host(&self) -> (r: &str)
        ensures
            r@ == self.spec_host(),
    {
        self.host.as_str()
    }

    /// The port.
    pub fn port(&self) -> (r: u16)
        ensures
            r == self.spec_port(),
    {
        self.port
    }

    /// The socket address text of the engine: the host, a colon and the port
    /// in decimal.
    pub fn address(&self) -> (r: String)
        ensures
            r@ == self.spec_host() + ":"@ + decimal(self.spec_port() as nat),
    {
        let mut out = String::from_str(self.host.as_str());
        out.append(":");
        push_decimal(&mut out, self.port as u64);
        out
    }
}

} // verus!
