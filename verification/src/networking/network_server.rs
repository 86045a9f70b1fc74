//! The WebSocket game server's listening address.
use vstd::prelude::*;
use vstd::string::*;
use crate::text::{decimal, push_u64};
use crate::database::{opt_view, port_or, port_setting, string_or, text_or};

verus! {

/// Where the game server listens.
pub struct NetworkServer {
    pub address: String,
    pub port: u16,
}

impl NetworkServer {
    /// A server listening on this address and port.
    pub fn new(address: String, port: u16) -> (s: NetworkServer)
        ensures
            s.address@ == address@,
            s.port == port,
    {
        NetworkServer { address, port }
    }

    /// The address it binds: `<address>:<port>`.
    pub fn bind_address(&self) -> (r: String)
        ensures
            r@ == self.address@ + ":"@ + decimal(self.port as nat),
    {
        let mut s = self.address.clone();
        s.append(":");
        push_u64(&mut s, self.port as u64);
        s
    }

    /// The server from the values of `SERVER_ADDRESS` and `SERVER_PORT`
    /// (`None` when unset): `127.0.0.1` and 9001 by default, and 9001 when
    /// the port does not parse.
    pub fn from_settings(address: Option<String>, port: Option<String>) -> (s: NetworkServer)
        ensures
            s.address@ == text_or(opt_view(address), "127.0.0.1"@),
            s.port == port_or(opt_view(port), 9001),
    {
        let a = string_or(address, "127.0.0.1");
        let p = port_setting(port, 9001);
        NetworkServer::new(a, p)
    }
}

} // verus!
