use vstd::prelude::*;

verus! {

/// The link-layer address family tag of packet sockets.
pub const AF_PACKET: u16 = 17;

/// The wildcard protocol selector: deliver frames of every protocol.
pub const ETH_P_ALL: u16 = 3;

/// A 16-bit value in network byte order: most significant byte first,
/// whatever the host's own byte order is.
pub open spec fn net_bytes(p: u16) -> Seq<u8> {
    seq![(p >> 8) as u8, (p & 0xff) as u8]
}

/// Encodes a 16-bit protocol identifier in network byte order.
pub fn protocol_to_net(p: u16) -> (r: [u8; 2])
    ensures
        r@ == net_bytes(p),
{
    proof {
        assert((p >> 8) < 256 && (p & 0xff) < 256) by (bit_vector);
    }
    let hi: u8 = (p >> 8) as u8;
    let lo: u8 = (p & 0xff) as u8;
    [hi, lo]
}

/// The fields of a link-layer socket address that this library fills in.
/// Every other field of the kernel's structure stays zero.
pub struct LinkAddr {
    /// Address family tag.
    pub family: u16,
    /// Protocol identifier in network byte order.
    pub protocol: [u8; 2],
    /// Kernel-assigned interface index.
    pub ifindex: i32,
    /// Number of meaningful bytes in `addr`.
    pub halen: u8,
    /// Destination hardware address, zero-padded to the maximum length.
    pub addr: [u8; 8],
}

/// Builds the address that binds a raw stream to one interface: the packet
/// family, the wildcard protocol in network byte order, and the interface
/// index; no destination hardware address.
pub fn bind_addr(ifindex: i32) -> (r: LinkAddr)
    ensures
        r.family == AF_PACKET,
        r.protocol@ == net_bytes(ETH_P_ALL),
        r.ifindex == ifindex,
        r.halen == 0,
        forall|i: int| 0 <= i < 8 ==> r.addr@[i] == 0u8,
{
    LinkAddr {
        family: AF_PACKET,
        protocol: protocol_to_net(ETH_P_ALL),
        ifindex,
        halen: 0,
        addr: [0u8; 8],
    }
}

} // verus!
