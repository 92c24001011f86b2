//! The handle of a netlink socket, the kernel's interface for inspecting and
//! configuring network interfaces.

use core::marker::PhantomData;
use vstd::prelude::*;

verus! {

/// Netlink family: route.
pub const NETLINK_ROUTE: i32 = 0;

/// A netlink socket: an open file descriptor.
pub struct Netlink {
    fd: i32,
}

impl Netlink {
    /// Takes over the descriptor that the socket call returned. A negative
    /// value is the call's report of failure and gives no socket.
    pub fn new(descriptor: i32) -> (socket: Option<Netlink>)
        ensures
            descriptor < 0 <==> socket is None,
            socket matches Some(open) ==> open.descriptor() == descriptor,
    {
        if descriptor < 0 {
            None
        } else {
            Some(Netlink { fd: descriptor })
        }
    }

    /// The file descriptor of the socket, never negative.
    pub closed spec fn descriptor(&self) -> i32 {
        self.fd
    }

    #[verifier::type_invariant]
    spec fn open(self) -> bool {
        self.fd >= 0
    }

    /// The file descriptor of the socket.
    pub fn fd(&self) -> (descriptor: i32)
        ensures
            descriptor == self.descriptor(),
            descriptor >= 0,
    {
        proof {
            use_type_invariant(self);
        }
        self.fd
    }
}

/// An iterator on the objects that answer one request on a netlink socket.
pub struct NetlinkIter<'sock, T> {
    sock: &'sock Netlink,
    seq: u32,
    _phantom: PhantomData<T>,
}

impl<'sock, T> NetlinkIter<'sock, T> {
    /// An iterator on the answers to the request numbered `sequence`.
    pub fn new(sock: &'sock Netlink, sequence: u32) -> (iter: Self)
        ensures
            iter.sequence() == sequence,
            iter.socket() == sock,
    {
        NetlinkIter { sock, seq: sequence, _phantom: PhantomData }
    }

    /// The sequence number on which the iterator works.
    pub closed spec fn sequence(&self) -> u32 {
        self.seq
    }

    /// The socket on which the iterator works.
    pub closed spec fn socket(&self) -> &Netlink {
        self.sock
    }

    /// The sequence number on which the iterator works.
    pub fn seq(&self) -> (sequence: u32)
        ensures
            sequence == self.sequence(),
    {
        self.seq
    }

    /// The socket on which the iterator works.
    pub fn sock(&self) -> (sock: &'sock Netlink)
        ensures
            sock == self.socket(),
    {
        self.sock
    }
}

} // verus!
