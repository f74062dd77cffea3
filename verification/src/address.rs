//! Address families, IP addresses and socket addresses.

use vstd::prelude::*;

verus! {

/// The address family that a socket is created for.
#[derive(Clone, Copy, Debug, PartialEq, Eq, Hash, Structural)]
pub enum IpAddressFamily {
    Ipv4,
    Ipv6,
}

/// An IP address: four octets, or eight 16-bit groups.
#[derive(Clone, Copy, Debug, PartialEq, Eq, Hash)]
pub enum IpAddress {
    Ipv4((u8, u8, u8, u8)),
    Ipv6((u16, u16, u16, u16, u16, u16, u16, u16)),
}

/// An IPv4 address together with a port.
#[derive(Clone, Copy, Debug, PartialEq, Eq, Hash)]
pub struct Ipv4SocketAddress {
    pub port: u16,
    pub address: (u8, u8, u8, u8),
}

/// An IPv6 address together with a port, flow information and a scope.
#[derive(Clone, Copy, Debug, PartialEq, Eq, Hash)]
pub struct Ipv6SocketAddress {
    pub port: u16,
    pub flow_info: u32,
    pub address: (u16, u16, u16, u16, u16, u16, u16, u16),
    pub scope_id: u32,
}

/// The address of one end of a connection.
#[derive(Clone, Copy, Debug, PartialEq, Eq, Hash)]
pub enum IpSocketAddress {
    Ipv4(Ipv4SocketAddress),
    Ipv6(Ipv6SocketAddress),
}

impl IpAddress {
    /// The loopback address of a family: `127.0.0.1` or `::1`.
    pub open spec fn loopback(family: IpAddressFamily) -> IpAddress {
        match family {
            IpAddressFamily::Ipv4 => IpAddress::Ipv4((127u8, 0u8, 0u8, 1u8)),
            IpAddressFamily::Ipv6 => IpAddress::Ipv6((0u16, 0u16, 0u16, 0u16, 0u16, 0u16, 0u16, 1u16)),
        }
    }

    /// The unspecified address of a family: `0.0.0.0` or `::`.
    pub open spec fn unspecified(family: IpAddressFamily) -> IpAddress {
        match family {
            IpAddressFamily::Ipv4 => IpAddress::Ipv4((0u8, 0u8, 0u8, 0u8)),
            IpAddressFamily::Ipv6 => IpAddress::Ipv6((0u16, 0u16, 0u16, 0u16, 0u16, 0u16, 0u16, 0u16)),
        }
    }

    /// The family that an address belongs to.
    pub open spec fn family_of(self) -> IpAddressFamily {
        match self {
            IpAddress::Ipv4(_) => IpAddressFamily::Ipv4,
            IpAddress::Ipv6(_) => IpAddressFamily::Ipv6,
        }
    }

    /// The loopback address of a family.
    pub fn new_loopback(family: IpAddressFamily) -> (ip: IpAddress)
        ensures
            ip == IpAddress::loopback(family),
    {
        match family {
            IpAddressFamily::Ipv4 => IpAddress::Ipv4((127, 0, 0, 1)),
            IpAddressFamily::Ipv6 => IpAddress::Ipv6((0, 0, 0, 0, 0, 0, 0, 1)),
        }
    }

    /// The unspecified address of a family.
    pub fn new_unspecified(family: IpAddressFamily) -> (ip: IpAddress)
        ensures
            ip == IpAddress::unspecified(family),
    {
        match family {
            IpAddressFamily::Ipv4 => IpAddress::Ipv4((0, 0, 0, 0)),
            IpAddressFamily::Ipv6 => IpAddress::Ipv6((0, 0, 0, 0, 0, 0, 0, 0)),
        }
    }

    /// The family of this address.
    pub fn family(&self) -> (family: IpAddressFamily)
        ensures
            family == self.family_of(),
    {
        match self {
            IpAddress::Ipv4(_) => IpAddressFamily::Ipv4,
            IpAddress::Ipv6(_) => IpAddressFamily::Ipv6,
        }
    }
}

impl IpSocketAddress {
    /// The socket address made of an IP address and a port; for IPv6 the flow
    /// information and the scope are zero.
    pub open spec fn of(ip: IpAddress, port: u16) -> IpSocketAddress {
        match ip {
            IpAddress::Ipv4(address) => IpSocketAddress::Ipv4(Ipv4SocketAddress { port, address }),
            IpAddress::Ipv6(address) => IpSocketAddress::Ipv6(
                Ipv6SocketAddress { port, flow_info: 0, address, scope_id: 0 },
            ),
        }
    }

    /// The IP address of a socket address.
    pub open spec fn ip_of(self) -> IpAddress {
        match self {
            IpSocketAddress::Ipv4(a) => IpAddress::Ipv4(a.address),
            IpSocketAddress::Ipv6(a) => IpAddress::Ipv6(a.address),
        }
    }

    /// The port of a socket address.
    pub open spec fn port_of(self) -> u16 {
        match self {
            IpSocketAddress::Ipv4(a) => a.port,
            IpSocketAddress::Ipv6(a) => a.port,
        }
    }

    /// The family that a socket address belongs to.
    pub open spec fn family_of(self) -> IpAddressFamily {
        self.ip_of().family_of()
    }

    /// Puts an address and a port together.
    pub fn new(ip: IpAddress, port: u16) -> (addr: IpSocketAddress)
        ensures
            addr == IpSocketAddress::of(ip, port),
    {
        match ip {
            IpAddress::Ipv4(address) => IpSocketAddress::Ipv4(Ipv4SocketAddress { port, address }),
            IpAddress::Ipv6(address) => IpSocketAddress::Ipv6(
                Ipv6SocketAddress { port, flow_info: 0, address, scope_id: 0 },
            ),
        }
    }

    /// The IP address.
    pub fn ip(&self) -> (ip: IpAddress)
        ensures
            ip == self.ip_of(),
    {
        match self {
            IpSocketAddress::Ipv4(a) => IpAddress::Ipv4(a.address),
            IpSocketAddress::Ipv6(a) => IpAddress::Ipv6(a.address),
        }
    }

    /// The port.
    pub fn port(&self) -> (port: u16)
        ensures
            port == self.port_of(),
    {
        match self {
            IpSocketAddress::Ipv4(a) => a.port,
            IpSocketAddress::Ipv6(a) => a.port,
        }
    }

    /// The family of this socket address.
    pub fn family(&self) -> (family: IpAddressFamily)
        ensures
            family == self.family_of(),
    {
        match self {
            IpSocketAddress::Ipv4(_) => IpAddressFamily::Ipv4,
            IpSocketAddress::Ipv6(_) => IpAddressFamily::Ipv6,
        }
    }

    /// The same address with another port.
    pub open spec fn on_port(self, port: u16) -> IpSocketAddress {
        match self {
            IpSocketAddress::Ipv4(a) => IpSocketAddress::Ipv4(Ipv4SocketAddress { port, address: a.address }),
            IpSocketAddress::Ipv6(a) => IpSocketAddress::Ipv6(
                Ipv6SocketAddress { port, flow_info: a.flow_info, address: a.address, scope_id: a.scope_id },
            ),
        }
    }

    /// The same address on another port.
    pub fn with_port(&self, port: u16) -> (addr: IpSocketAddress)
        ensures
            addr == self.on_port(port),
    {
        match self {
            IpSocketAddress::Ipv4(a) => IpSocketAddress::Ipv4(Ipv4SocketAddress { port, address: a.address }),
            IpSocketAddress::Ipv6(a) => IpSocketAddress::Ipv6(
                Ipv6SocketAddress { port, flow_info: a.flow_info, address: a.address, scope_id: a.scope_id },
            ),
        }
    }
}

/// A socket address made from an address and a port has that address, that port
/// and the address's family.
pub proof fn socket_address_keeps_parts(ip: IpAddress, port: u16)
    ensures
        IpSocketAddress::of(ip, port).ip_of() == ip,
        IpSocketAddress::of(ip, port).port_of() == port,
        IpSocketAddress::of(ip, port).family_of() == ip.family_of(),
        IpAddress::loopback(ip.family_of()).family_of() == ip.family_of(),
{
}

} // verus!
