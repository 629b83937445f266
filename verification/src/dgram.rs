use vstd::prelude::*;
use crate::addr::{net_bytes, protocol_to_net, LinkAddr};

verus! {

/// A transmit-oriented datagram link-layer endpoint: the descriptor plus the
/// call-site state that every send needs — target interface index,
/// destination hardware address, and the protocol identifier kept in network
/// byte order. The state is supplied fresh to each send.
#[derive(Debug)]
pub struct DgramPacketStream {
    fd: i32,
    ifindex: i32,
    dest: [u8; 8],
    protocol: [u8; 2],
}

impl DgramPacketStream {
    /// The descriptor this stream sends on.
    pub closed spec fn fd_spec(self) -> i32 {
        self.fd
    }

    /// The interface index the next send targets.
    pub closed spec fn ifindex_spec(self) -> i32 {
        self.ifindex
    }

    /// The destination hardware address the next send targets.
    pub closed spec fn dest_spec(self) -> Seq<u8> {
        self.dest@
    }

    /// The stored protocol identifier, in network byte order.
    pub closed spec fn protocol_spec(self) -> Seq<u8> {
        self.protocol@
    }

    /// The stream state after the target interface index changes.
    pub closed spec fn with_ifindex(self, ifindex: i32) -> DgramPacketStream {
        DgramPacketStream { ifindex, ..self }
    }

    /// The stream state after the destination address changes.
    pub closed spec fn with_dest(self, dest: [u8; 8]) -> DgramPacketStream {
        DgramPacketStream { dest, ..self }
    }

    /// The destination address a send issued now would build: full address
    /// length, the stored address bytes, the stored interface index, and the
    /// stored network-byte-order protocol. The family tag stays zero, as the
    /// kernel's structure is zero-initialised before the send fills it.
    pub closed spec fn send_addr(self) -> LinkAddr {
        LinkAddr { family: 0, protocol: self.protocol, ifindex: self.ifindex, halen: 8, addr: self.dest }
    }

    /// Assembles a datagram stream around an already-open datagram socket, a
    /// resolved interface index, a destination hardware address, and a
    /// protocol identifier, which is stored in network byte order.
    pub fn new(fd: i32, ifindex: i32, dest: [u8; 8], protocol: u16) -> (r: DgramPacketStream)
        ensures
            r.fd_spec() == fd,
            r.ifindex_spec() == ifindex,
            r.dest_spec() == dest@,
            r.protocol_spec() == net_bytes(protocol),
    {
        DgramPacketStream { fd, ifindex, dest, protocol: protocol_to_net(protocol) }
    }

    /// Points subsequent sends at another interface; the change takes effect
    /// on the next send only, never retroactively.
    pub fn set_ifindex(&mut self, ifindex: i32)
        ensures
            *final(self) == old(self).with_ifindex(ifindex),
            final(self).ifindex_spec() == ifindex,
            final(self).fd_spec() == old(self).fd_spec(),
            final(self).dest_spec() == old(self).dest_spec(),
            final(self).protocol_spec() == old(self).protocol_spec(),
    {
        self.ifindex = ifindex;
    }

    /// Points subsequent sends at another destination address; the change
    /// takes effect on the next send only, never retroactively.
    pub fn set_dest(&mut self, dest: [u8; 8])
        ensures
            *final(self) == old(self).with_dest(dest),
            final(self).dest_spec() == dest@,
            final(self).fd_spec() == old(self).fd_spec(),
            final(self).ifindex_spec() == old(self).ifindex_spec(),
            final(self).protocol_spec() == old(self).protocol_spec(),
    {
        self.dest = dest;
    }

    /// Builds the destination address for one send, fresh from the stream's
    /// current state.
    pub fn dest_addr(&self) -> (r: LinkAddr)
        ensures
            r == self.send_addr(),
            r.family == 0,
            r.protocol@ == self.protocol_spec(),
            r.ifindex == self.ifindex_spec(),
            r.halen == 8,
            r.addr@ == self.dest_spec(),
    {
        LinkAddr {
            family: 0,
            protocol: self.protocol,
            ifindex: self.ifindex,
            halen: 8,
            addr: self.dest,
        }
    }

    /// The descriptor, for callers that poll it; ownership stays with the
    /// stream.
    pub fn as_raw_fd(&self) -> (r: i32)
        ensures
            r == self.fd_spec(),
    {
        self.fd
    }
}

/// A send targets the most recent setter calls: after the interface and the
/// destination change, the address a send builds carries the new index and
/// the new address bytes, not the ones the stream was assembled with, while
/// the stored protocol stays as it was.
pub proof fn lemma_send_uses_latest_target(s: DgramPacketStream, ifindex: i32, dest: [u8; 8])
    ensures
        s.with_ifindex(ifindex).with_dest(dest).send_addr().ifindex == ifindex,
        s.with_ifindex(ifindex).with_dest(dest).send_addr().addr@ == dest@,
        s.with_ifindex(ifindex).with_dest(dest).send_addr().protocol@ == s.protocol_spec(),
        s.with_ifindex(ifindex).with_dest(dest).send_addr().halen == 8,
{
}

} // verus!
