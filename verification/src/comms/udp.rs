//! Addresses of a transport over UDP sockets.
use vstd::prelude::*;

verus! {

/// An IP address, version 4 or 6.
#[derive(Clone, Copy, Debug, PartialEq, Eq)]
pub enum Ip {
    V4([u8; 4]),
    V6([u8; 16]),
}

/// An IP address and a port.
#[derive(Clone, Copy, Debug, PartialEq, Eq)]
pub struct SocketAddress {
    pub ip: Ip,
    pub port: u16,
}

/// The address that reaches every node of the local segment that listens on
/// the port of `local`: the limited broadcast address of IPv4 with that
/// port. There is none for an IPv6 address.
pub open spec fn spec_broadcast_address(local: SocketAddress) -> Option<(Seq<u8>, u16)> {
    match local.ip {
        Ip::V4(_) => Some((seq![255u8, 255u8, 255u8, 255u8], local.port)),
        Ip::V6(_) => None,
    }
}

/// The address to broadcast to from a socket bound to `local`; `None` for
/// an IPv6 socket, over which broadcast is not provided for.
pub fn broadcast_address(local: &SocketAddress) -> (to: Option<SocketAddress>)
    ensures
        match spec_broadcast_address(*local) {
            Some((octets, port)) => to matches Some(a) && a.port == port && (a.ip matches Ip::V4(o)
                && o@ == octets),
            None => to is None,
        },
{
    match local.ip {
        Ip::V4(_) => {
            let a = [255u8, 255u8, 255u8, 255u8];
            assert(a@ =~= seq![255u8, 255u8, 255u8, 255u8]);
            Some(SocketAddress { ip: Ip::V4(a), port: local.port })
        },
        Ip::V6(_) => None,
    }
}

} // verus!
