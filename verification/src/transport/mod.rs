//! The tunnel-session interface: what a request for a stream carries.
//!
//! A tunnel session is a shared handle to one authenticated remote
//! transport. Its one operation opens a stream to a host and port; the
//! request names the host as text and is passed on unresolved.

use crate::address::{host_text, port_of, Target, TargetAddress};
use vstd::prelude::*;
use vstd::string::*;

pub mod ssh;

verus! {

/// The originator port sent with every stream request. It is informational.
pub const ORIGINATOR_PORT: u16 = 0;

/// The originator host sent with every stream request. It is informational.
pub open spec fn originator_host() -> Seq<char> {
    "localhost"@
}

/// What a tunnel session is asked for when a stream is created.
#[derive(Clone, Debug, PartialEq, Eq)]
pub struct StreamRequest {
    pub host_to_connect: String,
    pub port_to_connect: u16,
    pub originator_address: String,
    pub originator_port: u16,
}

/// The mathematical value of a [`StreamRequest`].
pub ghost struct StreamRequestView {
    pub host_to_connect: Seq<char>,
    pub port_to_connect: u16,
    pub originator_address: Seq<char>,
    pub originator_port: u16,
}

impl View for StreamRequest {
    type V = StreamRequestView;

    open spec fn view(&self) -> StreamRequestView {
        StreamRequestView {
            host_to_connect: self.host_to_connect@,
            port_to_connect: self.port_to_connect,
            originator_address: self.originator_address@,
            originator_port: self.originator_port,
        }
    }
}

/// The request made for a host and a port: the fixed originator is added.
pub open spec fn request_to(host: Seq<char>, port: u16) -> StreamRequestView {
    StreamRequestView {
        host_to_connect: host,
        port_to_connect: port,
        originator_address: originator_host(),
        originator_port: ORIGINATOR_PORT,
    }
}

/// The request made for a target address.
pub open spec fn request_for(target: Target) -> StreamRequestView {
    request_to(host_text(target), port_of(target))
}

impl StreamRequest {
    /// A request for a stream to `host:port`, with the fixed originator.
    pub fn new(host: String, port: u16) -> (request: StreamRequest)
        ensures
            request@ == request_to(host@, port),
    {
        StreamRequest {
            host_to_connect: host,
            port_to_connect: port,
            originator_address: String::from_str("localhost"),
            originator_port: ORIGINATOR_PORT,
        }
    }

    /// A request for a stream to a target address: a domain name is passed
    /// on as it is, an IP address in its textual form.
    pub fn for_target(target: &TargetAddress) -> (request: StreamRequest)
        ensures
            request@ == request_for(target@),
    {
        StreamRequest::new(target.host(), target.port())
    }
}

} // verus!
