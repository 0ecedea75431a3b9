//! Framing of messages on a stream: every message is preceded by its length,
//! four bytes in big-endian order.

use vstd::prelude::*;

verus! {

/// The four big-endian bytes of `n`.
pub open spec fn be_bytes(n: u32) -> Seq<u8> {
    seq![
        (n / 0x100_0000) as u8,
        ((n / 0x1_0000) % 0x100) as u8,
        ((n / 0x100) % 0x100) as u8,
        (n % 0x100) as u8,
    ]
}

/// The number that four bytes stand for in big-endian order.
pub open spec fn be_value(b: Seq<u8>) -> nat
    recommends
        b.len() == 4,
{
    (b[0] * 0x100_0000 + b[1] * 0x1_0000 + b[2] * 0x100 + b[3]) as nat
}

/// The header written before a message of `len` bytes: the length, cut to
/// 32 bits, in big-endian order.
pub fn frame_header(len: usize) -> (r: [u8; 4])
    ensures
        r@ == be_bytes(len as u32),
{
    let n = len as u32;
    let r = [
        (n / 0x100_0000) as u8,
        ((n / 0x1_0000) % 0x100) as u8,
        ((n / 0x100) % 0x100) as u8,
        (n % 0x100) as u8,
    ];
    assert(r@ =~= be_bytes(n));
    r
}

/// The length of the message that follows a header.
pub fn frame_length(header: [u8; 4]) -> (r: usize)
    ensures
        r == be_value(header@),
{
    let n: u32 = (header[0] as u32) * 0x100_0000 + (header[1] as u32) * 0x1_0000
        + (header[2] as u32) * 0x100 + (header[3] as u32);
    n as usize
}

/// The header of a message stands for the message's length cut to 32 bits.
pub proof fn lemma_header_value(len: usize)
    ensures
        be_value(be_bytes(len as u32)) == len as u32,
{
    let n = len as u32;
    let a = n / 0x100_0000;
    let b = (n / 0x1_0000) % 0x100;
    let c = (n / 0x100) % 0x100;
    let d = n % 0x100;
    assert(a * 0x100_0000 + b * 0x1_0000 + c * 0x100 + d == n) by (nonlinear_arith)
        requires
            a == n / 0x100_0000,
            b == (n / 0x1_0000) % 0x100,
            c == (n / 0x100) % 0x100,
            d == n % 0x100,
    ;
}

/// Reading the header written before a message gives back the message's
/// length, for every length that fits in 32 bits.
pub proof fn lemma_frame_round_trip(len: usize)
    requires
        len < 0x1_0000_0000,
    ensures
        be_value(be_bytes(len as u32)) == len,
{
    lemma_header_value(len);
}

/// The header is big-endian: a length below 256 is written as three zero
/// bytes followed by the length, and multiplying a length below 2^24 by 256
/// shifts its header one byte towards the front.
pub proof fn lemma_header_is_big_endian(n: u32)
    ensures
        n < 0x100 ==> be_bytes(n) == seq![0u8, 0u8, 0u8, n as u8],
        n < 0x100_0000 ==> be_bytes((n * 0x100) as u32) == be_bytes(n).subrange(1, 4).push(0u8),
{
    if n < 0x100 {
        assert(be_bytes(n) =~= seq![0u8, 0u8, 0u8, n as u8]);
    }
    if n < 0x100_0000 {
        let m = (n * 0x100) as u32;
        assert(m == n * 0x100);
        assert(m / 0x100_0000 == n / 0x1_0000) by (nonlinear_arith)
            requires m == n * 0x100, n < 0x100_0000;
        assert((m / 0x1_0000) % 0x100 == (n / 0x100) % 0x100) by (nonlinear_arith)
            requires m == n * 0x100, n < 0x100_0000;
        assert((m / 0x100) % 0x100 == n % 0x100) by (nonlinear_arith)
            requires m == n * 0x100, n < 0x100_0000;
        assert(m % 0x100 == 0) by (nonlinear_arith)
            requires m == n * 0x100;
        assert(be_bytes(m) =~= be_bytes(n).subrange(1, 4).push(0u8));
    }
}

} // verus!
