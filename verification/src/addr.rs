use vstd::prelude::*;

verus! {

/// An IPv4 address held as its four dotted-quad octets, most
/// significant first.
#[derive(Clone, Copy, Debug, PartialEq, Eq, Structural)]
pub struct Ipv4Address {
    pub o0: u8,
    pub o1: u8,
    pub o2: u8,
    pub o3: u8,
}

impl Ipv4Address {
    /// Packs four octets into an address.
    pub fn new(o0: u8, o1: u8, o2: u8, o3: u8) -> (r: Ipv4Address)
        ensures
            r == (Ipv4Address { o0, o1, o2, o3 }),
    {
        Ipv4Address { o0, o1, o2, o3 }
    }
}

/// Reads an IPv4 address out of a byte buffer: four bytes give the four
/// octets in order, any other length gives nothing.
pub fn u8_to_ipv4addr(buf: &[u8]) -> (r: Option<Ipv4Address>)
    ensures
        buf@.len() == 4 ==> r == Some(
            Ipv4Address { o0: buf@[0], o1: buf@[1], o2: buf@[2], o3: buf@[3] },
        ),
        buf@.len() != 4 ==> r is None,
{
    if buf.len() == 4 {
        Some(Ipv4Address { o0: buf[0], o1: buf[1], o2: buf[2], o3: buf[3] })
    } else {
        None
    }
}

} // verus!
