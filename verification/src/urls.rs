//! The two addresses a session is bound with.

use vstd::prelude::*;
use vstd::string::StringExecFns;
use crate::address::Address;
use crate::address::AddressView;

verus! {

/// Where a session listens, and the URL under which peers reach it.
#[derive(Debug, PartialEq, Eq)]
pub struct ServerAddrs {
    pub webrtc_listen_addr: Address,
    pub public_webrtc_url: String,
}

impl Clone for ServerAddrs {
    fn clone(&self) -> (r: Self)
        ensures
            r.webrtc_listen_addr@ == self.webrtc_listen_addr@,
            r.public_webrtc_url@ == self.public_webrtc_url@,
    {
        ServerAddrs {
            webrtc_listen_addr: self.webrtc_listen_addr.clone(),
            public_webrtc_url: self.public_webrtc_url.clone(),
        }
    }
}

impl ServerAddrs {
    /// The pair of a listen address and a public URL.
    pub fn new(webrtc_listen_addr: Address, public_webrtc_url: &str) -> (r: ServerAddrs)
        ensures
            r.webrtc_listen_addr == webrtc_listen_addr,
            r.public_webrtc_url@ == public_webrtc_url@,
    {
        ServerAddrs { webrtc_listen_addr, public_webrtc_url: String::from_str(public_webrtc_url) }
    }
}

impl Default for ServerAddrs {
    /// Listen on every interface at port 5659, reachable on the local host.
    fn default() -> (r: ServerAddrs)
        ensures
            r.webrtc_listen_addr@ == (AddressView { ip: "0.0.0.0"@, port: 5659 }),
            r.public_webrtc_url@ == "http://127.0.0.1:5659"@,
    {
        ServerAddrs::new(Address::new("0.0.0.0", 5659), "http://127.0.0.1:5659")
    }
}

} // verus!
