//! Addresses as the resolver answers them, and the endpoints that the
//! connector dials.
use vstd::prelude::*;

verus! {

/// An IP address, held by value: IPv4 as its 32 bits and IPv6 as its 128
/// bits, most significant first.
#[derive(Clone, Copy, Debug, PartialEq, Eq, Structural)]
pub enum IpAddress {
    V4(u32),
    V6(u128),
}

/// A connectable endpoint: an address and a port.
#[derive(Clone, Copy, Debug, PartialEq, Eq, Structural)]
pub struct Endpoint {
    pub ip: IpAddress,
    pub port: u16,
}

/// The port paired with a resolved address before the connector binds the
/// real one: it means "not yet bound" and is never dialed as it stands.
pub const UNBOUND_PORT: u16 = 0;

/// The endpoint that stands for a resolved address until the connector sets
/// its port.
pub open spec fn unbound_endpoint(ip: IpAddress) -> Endpoint {
    Endpoint { ip, port: UNBOUND_PORT }
}

/// The endpoints for an answer: one for each address, in the answer's order.
pub open spec fn endpoints_of(answer: Seq<IpAddress>) -> Seq<Endpoint> {
    answer.map_values(|ip: IpAddress| unbound_endpoint(ip))
}

impl Endpoint {
    /// The endpoint for `ip` with the unbound placeholder port.
    pub fn unbound(ip: IpAddress) -> (r: Endpoint)
        ensures
            r == unbound_endpoint(ip),
    {
        Endpoint { ip, port: UNBOUND_PORT }
    }
}

/// Turns a resolver's answer into endpoints: one for each address, in the
/// same order, duplicates kept, each with the unbound placeholder port.
pub fn endpoints_from_addresses(answer: &Vec<IpAddress>) -> (r: Vec<Endpoint>)
    ensures
        r@ == endpoints_of(answer@),
        r@.len() == answer@.len(),
        forall|k: int| 0 <= k < answer@.len() ==> (#[trigger] r@[k]).ip == answer@[k],
        forall|k: int| 0 <= k < answer@.len() ==> (#[trigger] r@[k]).port == UNBOUND_PORT,
{
    let mut r: Vec<Endpoint> = Vec::with_capacity(answer.len());
    let mut i: usize = 0;
    while i < answer.len()
        invariant
            i <= answer@.len(),
            r@ == endpoints_of(answer@.take(i as int)),
        decreases answer@.len() - i,
    {
        r.push(Endpoint::unbound(answer[i]));
        proof {
            assert(answer@.take(i + 1) == answer@.take(i as int).push(answer@[i as int]));
        }
        i = i + 1;
    }
    proof {
        assert(answer@.take(answer@.len() as int) == answer@);
    }
    r
}

} // verus!
