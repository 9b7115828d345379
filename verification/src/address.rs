//! Addresses as plain values, and the single-pass sequence that one lookup yields.

use vstd::prelude::*;

verus! {

/// An IP address, given by its octets in network order.
#[derive(Clone, Copy, Debug, PartialEq, Eq)]
pub enum IpAddress {
    V4([u8; 4]),
    V6([u8; 16]),
}

/// The port of every address that a lookup yields. Name resolution knows no
/// port; the layer that connects fills in the real one.
pub const UNSPECIFIED_PORT: u16 = 0;

/// An IP address together with a port.
#[derive(Clone, Copy, Debug, PartialEq, Eq)]
pub struct SocketAddress {
    pub ip: IpAddress,
    pub port: u16,
}

/// The socket addresses that stand for a list of resolved IP addresses: the
/// same addresses in the same order, each with the unspecified port.
pub open spec fn socket_addresses(ips: Seq<IpAddress>) -> Seq<SocketAddress> {
    Seq::new(ips.len(), |i: int| SocketAddress { ip: ips[i], port: UNSPECIFIED_PORT })
}

/// The addresses of one lookup, handed out one by one, front to back, once.
///
/// The view is what is still to come. It only ever loses its first element:
/// nothing rewinds the sequence.
pub struct SocketAddrs {
    ips: Vec<IpAddress>,
    yielded: usize,
}

impl View for SocketAddrs {
    type V = Seq<SocketAddress>;

    closed spec fn view(&self) -> Seq<SocketAddress> {
        socket_addresses(self.ips@.skip(self.yielded as int))
    }
}

impl SocketAddrs {
    #[verifier::type_invariant]
    spec fn well_formed(&self) -> bool {
        self.yielded <= self.ips.len()
    }

    /// The sequence over the given resolved addresses, none yielded yet.
    pub fn new(ips: Vec<IpAddress>) -> (addrs: Self)
        ensures
            addrs@ == socket_addresses(ips@),
    {
        let addrs = SocketAddrs { ips, yielded: 0 };
        assert(addrs.ips@.skip(0) =~= addrs.ips@);
        addrs
    }

    /// Turns the outcome of one lookup into what the caller of that lookup
    /// gets: all of its addresses as a fresh sequence, or its error as it is.
    pub fn from_lookup<X>(outcome: Result<Vec<IpAddress>, X>) -> (result: Result<Self, X>)
        ensures
            match outcome {
                Ok(ips) => result matches Ok(addrs) && addrs@ == socket_addresses(ips@),
                Err(error) => result matches Err(e) && e == error,
            },
    {
        match outcome {
            Ok(ips) => Ok(SocketAddrs::new(ips)),
            Err(error) => Err(error),
        }
    }

    /// How many addresses are still to come.
    pub fn remaining(&self) -> (n: usize)
        ensures
            n == self@.len(),
    {
        proof {
            use_type_invariant(self);
        }
        self.ips.len() - self.yielded
    }

    /// Hands out the next address, if any is left, and moves past it. Once
    /// the sequence is exhausted it stays so.
    pub fn next(&mut self) -> (addr: Option<SocketAddress>)
        ensures
            old(self)@.len() == 0 ==> addr is None && final(self)@ == old(self)@,
            old(self)@.len() > 0 ==> addr == Some(old(self)@[0]) && final(self)@ == old(
                self,
            )@.drop_first(),
    {
        proof {
            use_type_invariant(&*self);
        }
        if self.yielded < self.ips.len() {
            let ip = self.ips[self.yielded];
            self.yielded = self.yielded + 1;
            assert(self@ =~= old(self)@.drop_first());
            Some(SocketAddress { ip, port: UNSPECIFIED_PORT })
        } else {
            None
        }
    }
}

} // verus!
