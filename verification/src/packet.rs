use vstd::prelude::*;
use crate::ECHO_REQUEST_TYPE;

verus! {

/// The 16-bit big-endian word at word index `i` of the byte sequence `b`.
pub open spec fn be_word(b: Seq<u8>, i: int) -> int {
    b[2 * i] * 256 + b[2 * i + 1]
}

/// One's-complement 16-bit addition with end-around carry (RFC 1071).
pub open spec fn oc_add(a: int, b: int) -> int {
    if a + b < 0x10000 {
        a + b
    } else {
        a + b - 0xFFFF
    }
}

/// One's-complement sum of the first `n` 16-bit words of `b`.
pub open spec fn oc_sum(b: Seq<u8>, n: int) -> int
    decreases n,
{
    if n <= 0 {
        0
    } else {
        oc_add(oc_sum(b, n - 1), be_word(b, n - 1))
    }
}

/// The internet checksum (RFC 1071) of an even-length byte buffer: the
/// complement of the one's-complement sum of its 16-bit words.
pub open spec fn internet_checksum(b: Seq<u8>) -> int {
    0xFFFF - oc_sum(b, b.len() as int / 2)
}

/// The one's-complement sum of any word prefix stays a 16-bit value.
pub proof fn lemma_oc_sum_bounds(b: Seq<u8>, n: int)
    ensures
        0 <= oc_sum(b, n) <= 0xFFFF,
    decreases n,
{
    if n > 0 {
        lemma_oc_sum_bounds(b, n - 1);
    }
}

/// Computes the internet checksum of `buf`, folding the carry back in
/// after every word so the running sum stays 16 bits wide.
pub fn rfc1071_checksum(buf: &Vec<u8>) -> (r: u16)
    requires
        buf@.len() % 2 == 0,
    ensures
        r == internet_checksum(buf@),
{
    let n: usize = buf.len() / 2;
    let mut sum: u32 = 0;
    let mut i: usize = 0;
    while i < n
        invariant
            i <= n,
            n == buf@.len() / 2,
            buf@.len() % 2 == 0,
            buf@.len() <= usize::MAX,
            0 <= sum <= 0xFFFF,
            sum == oc_sum(buf@, i as int),
        decreases n - i,
    {
        proof {
            lemma_oc_sum_bounds(buf@, i + 1);
        }
        let hi = buf[2 * i] as u32;
        let lo = buf[2 * i + 1] as u32;
        sum = sum + hi * 256 + lo;
        if sum >= 0x10000 {
            sum = sum - 0xFFFF;
        }
        i = i + 1;
    }
    (0xFFFF - sum) as u16
}

/// Byte layout of an ICMP Echo Request header before the checksum is
/// filled in: type = Echo Request, code and all remaining bytes zero.
pub open spec fn echo_request_base() -> Seq<u8> {
    seq![ECHO_REQUEST_TYPE, 0u8, 0u8, 0u8, 0u8, 0u8, 0u8, 0u8]
}

/// `b` with its ICMP checksum field (bytes 2 and 3) holding `c` in
/// big-endian order.
pub open spec fn with_checksum(b: Seq<u8>, c: int) -> Seq<u8> {
    b.update(2, (c / 256) as u8).update(3, (c % 256) as u8)
}

/// The full buffer the builder produces: the base echo-request header
/// with the checksum of that zero-checksum header folded in.
pub open spec fn echo_request_bytes() -> Seq<u8> {
    with_checksum(echo_request_base(), internet_checksum(echo_request_base()))
}

/// Law: for an 8-byte message whose checksum field is zero, writing the
/// internet checksum of the message into that field makes the
/// one's-complement sum of the whole message 0xFFFF, so folding the
/// stored checksum back into the computation yields a zero check value.
pub proof fn lemma_checksum_folds_to_zero(b: Seq<u8>)
    requires
        b.len() == 8,
        b[2] == 0,
        b[3] == 0,
    ensures
        oc_sum(with_checksum(b, internet_checksum(b)), 4) == 0xFFFF,
        0xFFFF - oc_sum(with_checksum(b, internet_checksum(b)), 4) == 0,
{
    reveal_with_fuel(oc_sum, 5);
    lemma_oc_sum_bounds(b, 4);
    let c = internet_checksum(b);
    let f = with_checksum(b, c);
    assert(be_word(b, 1) == 0);
    assert(be_word(f, 1) == c);
    assert(be_word(f, 0) == be_word(b, 0));
    assert(be_word(f, 2) == be_word(b, 2));
    assert(be_word(f, 3) == be_word(b, 3));
}

/// Law: the built echo-request packet passes the receiver's integrity
/// check — the one's-complement sum over the buffer, checksum included,
/// complements to zero.
pub proof fn lemma_built_packet_verifies()
    ensures
        oc_sum(echo_request_bytes(), 4) == 0xFFFF,
{
    lemma_checksum_folds_to_zero(echo_request_base());
}

/// Law: the builder is deterministic — any two buffers meeting its
/// contract are equal — and the type field always holds Echo Request.
pub proof fn lemma_builder_deterministic(a: Seq<u8>, b: Seq<u8>)
    requires
        a == echo_request_bytes(),
        b == echo_request_bytes(),
    ensures
        a == b,
        a.len() == 8,
        a[0] == ECHO_REQUEST_TYPE,
{
}

/// Builds the 8-byte ICMP Echo Request used for every probe: type field
/// set to Echo Request, no identifier or sequence number, and the RFC 1071
/// checksum of the whole message stored big-endian in bytes 2 and 3.
pub fn create_default_icmp_buffer() -> (r: [u8; 8])
    ensures
        r@ == echo_request_bytes(),
        r@[0] == ECHO_REQUEST_TYPE,
        r@[1] == 0,
        forall|i: int| 4 <= i < 8 ==> r@[i] == 0,
{
    let mut base: Vec<u8> = Vec::new();
    base.push(ECHO_REQUEST_TYPE);
    let mut i: usize = 0;
    while i < 7
        invariant
            i <= 7,
            base@.len() == i + 1,
            base@ == echo_request_base().take(i + 1),
        decreases 7 - i,
    {
        base.push(0u8);
        i = i + 1;
    }
    proof {
        assert(base@ =~= echo_request_base());
    }
    let c = rfc1071_checksum(&base);
    let r: [u8; 8] = [
        ECHO_REQUEST_TYPE,
        0u8,
        (c / 256) as u8,
        (c % 256) as u8,
        0u8,
        0u8,
        0u8,
        0u8,
    ];
    proof {
        assert(r@ =~= echo_request_bytes());
    }
    r
}

} // verus!
