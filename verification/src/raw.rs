use vstd::prelude::*;

verus! {

/// The socket level on which promiscuous membership is controlled.
pub const SOL_PACKET: i32 = 263;

/// The control opcode that adds a membership.
pub const PACKET_ADD_MEMBERSHIP: i32 = 1;

/// The control opcode that drops a membership.
pub const PACKET_DROP_MEMBERSHIP: i32 = 2;

/// The membership type for promiscuous mode.
pub const PACKET_MR_PROMISC: u16 = 1;

/// A promiscuous-membership control message: the level and opcode to issue,
/// and the membership record's meaningful fields. Every other field of the
/// kernel's record stays zero.
pub struct MembershipRequest {
    pub level: i32,
    pub opcode: i32,
    pub mr_ifindex: i32,
    pub mr_type: u16,
}

/// Builds the control message that adds or drops single promiscuous
/// membership for one interface on a socket: the opcode is chosen by the
/// boolean, the record names the interface and the promiscuous type.
pub fn promisc_request(ifindex: i32, enable: bool) -> (r: MembershipRequest)
    ensures
        r.level == SOL_PACKET,
        enable ==> r.opcode == PACKET_ADD_MEMBERSHIP,
        !enable ==> r.opcode == PACKET_DROP_MEMBERSHIP,
        r.mr_ifindex == ifindex,
        r.mr_type == PACKET_MR_PROMISC,
{
    let opcode: i32 = if enable {
        PACKET_ADD_MEMBERSHIP
    } else {
        PACKET_DROP_MEMBERSHIP
    };
    MembershipRequest { level: SOL_PACKET, opcode, mr_ifindex: ifindex, mr_type: PACKET_MR_PROMISC }
}

/// Decides whether draining goes on after one non-blocking receive: any
/// receive failure, would-block included, ends the drain silently.
pub fn drain_continue(rv: isize) -> (r: bool)
    ensures
        r <==> rv != -1,
{
    rv != -1
}

/// A bidirectional raw link-layer endpoint: the descriptor it speaks for,
/// and whether destruction should still release that descriptor. Every
/// other piece of its state — bound interface, memberships, attached
/// classifier, blocking mode — lives in the kernel, never shadowed here.
#[derive(Debug)]
pub struct RawPacketStream {
    fd: i32,
    owned: bool,
}

impl RawPacketStream {
    /// The descriptor this stream speaks for.
    pub closed spec fn fd_spec(self) -> i32 {
        self.fd
    }

    /// Whether destruction of this stream still releases the descriptor.
    pub closed spec fn owns_fd(self) -> bool {
        self.owned
    }

    /// The stream that adopting an already-open descriptor yields.
    pub closed spec fn adopted(fd: i32) -> RawPacketStream {
        RawPacketStream { fd, owned: true }
    }

    /// The stream as extraction leaves it: same descriptor, release
    /// suspended.
    pub closed spec fn extracted(self) -> RawPacketStream {
        RawPacketStream { fd: self.fd, owned: false }
    }

    /// What destruction must close: the descriptor while the stream still
    /// owns it, nothing once it was extracted.
    pub closed spec fn close_target(self) -> Option<i32> {
        if self.owned {
            Some(self.fd)
        } else {
            None
        }
    }

    /// Adopts an already-open descriptor: the new stream owns it and its
    /// destruction will release it. That the descriptor really is a
    /// compatible socket is the caller's responsibility, not checked here.
    pub fn adopt_fd(fd: i32) -> (r: RawPacketStream)
        ensures
            r == RawPacketStream::adopted(fd),
            r.fd_spec() == fd,
            r.owns_fd(),
    {
        RawPacketStream { fd, owned: true }
    }

    /// The descriptor, for callers that poll it; ownership stays with the
    /// stream.
    pub fn as_raw_fd(&self) -> (r: i32)
        ensures
            r == self.fd_spec(),
    {
        self.fd
    }

    /// Extracts the descriptor: the caller becomes responsible for its
    /// eventual release, and this stream's destruction no longer closes it.
    pub fn into_raw_fd(&mut self) -> (r: i32)
        ensures
            r == old(self).fd_spec(),
            *final(self) == old(self).extracted(),
            final(self).fd_spec() == old(self).fd_spec(),
            !final(self).owns_fd(),
    {
        self.owned = false;
        self.fd
    }

    /// What destruction must release now: the owned descriptor, or nothing
    /// if it was extracted.
    pub fn close_on_drop(&self) -> (r: Option<i32>)
        ensures
            r == self.close_target(),
            self.owns_fd() ==> r == Some(self.fd_spec()),
            !self.owns_fd() ==> r is None,
    {
        if self.owned {
            Some(self.fd)
        } else {
            None
        }
    }
}

/// Extraction suspends the release: destroying a stream whose descriptor
/// was extracted closes nothing, so the extracted descriptor cannot be
/// closed a second time by the stream it left.
pub proof fn lemma_extract_suppresses_close(s: RawPacketStream)
    ensures
        s.extracted().close_target() is None,
{
}

/// Adopting a descriptor and then destroying the stream releases exactly
/// that descriptor, exactly once.
pub proof fn lemma_adopt_closes_once(fd: i32)
    ensures
        RawPacketStream::adopted(fd).close_target() == Some(fd),
{
}

} // verus!
