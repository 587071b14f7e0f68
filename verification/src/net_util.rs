//! How the UDP socket of a track is opened.
//!
//! Nothing here touches a socket: a plan says which options to set and what
//! to bind, and the caller carries it out.

use crate::error::GatewayError;
use crate::track_def::{IpAddress, SocketAddress};
use vstd::prelude::*;

verus! {

/// How to open one datagram socket.
#[derive(Clone, Copy, Debug, PartialEq, Eq, Structural)]
pub struct SocketPlan {
    /// An IPv4 socket, or else an IPv6 one.
    pub v4: bool,
    /// The multicast group to join on all interfaces, if any.
    pub join_group: Option<IpAddress>,
    /// Restrict an IPv6 socket to IPv6 traffic.
    pub only_v6: bool,
    /// Never block on the socket.
    pub nonblocking: bool,
    /// Set `SO_REUSEADDR`.
    pub reuse_address: bool,
    /// Set `SO_REUSEPORT`, where the platform has it.
    pub reuse_port: bool,
    /// The address to bind.
    pub bind: SocketAddress,
}

/// The plan for a unicast address.
pub open spec fn spec_bind_udp(addr: SocketAddress) -> SocketPlan {
    SocketPlan {
        v4: addr.ip is V4,
        join_group: None,
        only_v6: false,
        nonblocking: true,
        reuse_address: true,
        reuse_port: false,
        bind: addr,
    }
}

/// The plan for a multicast group.
pub open spec fn spec_join_multicast(addr: SocketAddress) -> SocketPlan {
    SocketPlan {
        v4: addr.ip is V4,
        join_group: Some(addr.ip),
        only_v6: addr.ip is V6,
        nonblocking: true,
        reuse_address: true,
        reuse_port: true,
        bind: addr,
    }
}

/// The plan for any address: join it if it is a multicast group, bind it
/// otherwise. Every socket is reusable and non-blocking.
pub open spec fn spec_listen_udp(addr: SocketAddress) -> SocketPlan {
    if addr.ip.spec_is_multicast() {
        spec_join_multicast(addr)
    } else {
        spec_bind_udp(addr)
    }
}

pub fn bind_udp(addr: &SocketAddress) -> (r: SocketPlan)
    ensures
        r == spec_bind_udp(*addr),
{
    SocketPlan {
        v4: addr.ip.is_v4(),
        join_group: None,
        only_v6: false,
        nonblocking: true,
        reuse_address: true,
        reuse_port: false,
        bind: *addr,
    }
}

/// `BindError` for an address that is no multicast group.
pub fn join_multicast(multicast_addr: &SocketAddress) -> (r: Result<SocketPlan, GatewayError>)
    ensures
        r == if multicast_addr.ip.spec_is_multicast() {
            Ok::<SocketPlan, GatewayError>(spec_join_multicast(*multicast_addr))
        } else {
            Err::<SocketPlan, GatewayError>(GatewayError::BindError)
        },
{
    if !multicast_addr.ip.is_multicast() {
        return Err(GatewayError::BindError);
    }
    let v4 = multicast_addr.ip.is_v4();
    Ok(
        SocketPlan {
            v4,
            join_group: Some(multicast_addr.ip),
            only_v6: !v4,
            nonblocking: true,
            reuse_address: true,
            reuse_port: true,
            bind: *multicast_addr,
        },
    )
}

/// The address a multicast socket binds: the group itself where the
/// platform is POSIX, the unspecified address of the group's family and the
/// group's port elsewhere.
pub open spec fn spec_bind_multicast(addr: SocketAddress, posix: bool) -> SocketAddress {
    if posix {
        addr
    } else {
        SocketAddress {
            ip: match addr.ip {
                IpAddress::V4(_) => IpAddress::V4(0),
                IpAddress::V6(_) => IpAddress::V6(0),
            },
            port: addr.port,
        }
    }
}

pub fn bind_multicast(addr: &SocketAddress, posix: bool) -> (r: SocketAddress)
    ensures
        r == spec_bind_multicast(*addr, posix),
{
    if posix {
        *addr
    } else {
        let ip = match addr.ip {
            IpAddress::V4(_) => IpAddress::V4(0),
            IpAddress::V6(_) => IpAddress::V6(0),
        };
        SocketAddress { ip, port: addr.port }
    }
}

pub fn listen_udp(addr: &SocketAddress) -> (r: SocketPlan)
    ensures
        r == spec_listen_udp(*addr),
{
    if addr.ip.is_multicast() {
        match join_multicast(addr) {
            Ok(plan) => plan,
            Err(_) => bind_udp(addr),
        }
    } else {
        bind_udp(addr)
    }
}

} // verus!
