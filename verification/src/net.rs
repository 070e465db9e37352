//! Plain models of the network-facing values the gateway works with: the
//! protocol plane of a flow, a socket address, and the metadata of one flow.

use vstd::prelude::*;

verus! {

/// The protocol plane a flow belongs to.
#[derive(Clone, Copy, Debug, PartialEq, Eq, Structural)]
pub enum Protocol {
    Tcp,
    Udp,
}

/// An IPv4 socket address, held as plain octets and a port.
#[derive(Clone, Copy, Debug, PartialEq, Eq, Structural)]
pub struct Address {
    pub o1: u8,
    pub o2: u8,
    pub o3: u8,
    pub o4: u8,
    pub port: u16,
}

/// The metadata of one flow: its protocol plane and both endpoints.
#[derive(Clone, Copy, Debug, PartialEq, Eq, Structural)]
pub struct FlowMetadata {
    pub protocol: Protocol,
    pub src: Address,
    pub dst: Address,
}

} // verus!
