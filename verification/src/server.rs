//! The server's configuration: the address its listener binds to.
//!
//! Accepting connections and moving bytes is the caller's work; each
//! accepted stream is then driven by a
//! [`crate::session::ConnectionSession`].

use vstd::prelude::*;

verus! {

/// One server, configured with the `host:port` string to bind.
pub struct Server {
    addr: String,
}

impl Server {
    /// The address this server was configured with.
    pub closed spec fn spec_addr(self) -> Seq<char> {
        self.addr@
    }

    /// Configures a server for the given bind address.
    pub fn new(addr: String) -> (s: Self)
        ensures
            s.spec_addr() == addr@,
    {
        Self { addr }
    }

    /// The bind address, for the caller that owns the listener.
    pub fn addr(&self) -> (r: &String)
        ensures
            r@ == self.spec_addr(),
    {
        &self.addr
    }
}

} // verus!
