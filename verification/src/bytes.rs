use vstd::prelude::*;

verus! {

/// The big-endian four-byte encoding of a 32-bit value.
pub open spec fn be_bytes_of_u32(i: u32) -> Seq<u8> {
    seq![
        (i / 0x1000000) as u8,
        ((i / 0x10000) % 256) as u8,
        ((i / 256) % 256) as u8,
        (i % 256) as u8,
    ]
}

/// Encodes a 32-bit value as its four big-endian bytes, most
/// significant first.
pub fn make_vec_from_u32(i: u32) -> (r: Vec<u8>)
    ensures
        r@ == be_bytes_of_u32(i),
        r@.len() == 4,
{
    let mut v: Vec<u8> = Vec::new();
    v.push((i / 0x1000000) as u8);
    v.push(((i / 0x10000) % 256) as u8);
    v.push(((i / 256) % 256) as u8);
    v.push((i % 256) as u8);
    proof {
        assert(v@ =~= be_bytes_of_u32(i));
    }
    v
}

} // verus!
