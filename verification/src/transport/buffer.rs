//! The growable byte buffer (`bytes::BytesMut`) that frames are read from
//! and written to, modelled by the sequence of bytes it holds.

use vstd::prelude::*;
use bytes::BytesMut;

verus! {

#[verifier::external_type_specification]
#[verifier::external_body]
pub struct ExBytesMut(bytes::BytesMut);

/// The bytes held by a `BytesMut`, in order.
pub uninterp spec fn buf_contents(b: BytesMut) -> Seq<u8>;

/// The four bytes of `n`, most significant first.
pub open spec fn be_u32_bytes(n: u32) -> Seq<u8> {
    seq![
        (n / 0x100_0000) as u8,
        ((n / 0x1_0000) % 0x100) as u8,
        ((n / 0x100) % 0x100) as u8,
        (n % 0x100) as u8,
    ]
}

/// The number whose big-endian encoding is the first four bytes of `b`.
pub open spec fn be_u32_value(b: Seq<u8>) -> nat
    recommends
        b.len() >= 4,
{
    (b[0] * 0x100_0000 + b[1] * 0x1_0000 + b[2] * 0x100 + b[3]) as nat
}

/// Decoding the big-endian encoding of `n` gives back `n`.
pub proof fn lemma_be_u32_roundtrip(n: u32)
    ensures
        be_u32_value(be_u32_bytes(n)) == n,
        be_u32_bytes(n).len() == 4,
{
    let b = be_u32_bytes(n);
    let a = n / 0x100_0000;
    let r1 = n % 0x100_0000;
    assert(n == a * 0x100_0000 + r1 && 0 <= r1 < 0x100_0000) by (nonlinear_arith)
        requires a == n / 0x100_0000, r1 == n % 0x100_0000;
    assert(a < 0x100) by (nonlinear_arith)
        requires a == n / 0x100_0000, n <= 0xffff_ffff;
    assert((n / 0x1_0000) % 0x100 == r1 / 0x1_0000) by (nonlinear_arith)
        requires r1 == n % 0x100_0000, a == n / 0x100_0000, n == a * 0x100_0000 + r1, 0 <= r1 < 0x100_0000;
    assert((n / 0x100) % 0x100 == (r1 % 0x1_0000) / 0x100) by (nonlinear_arith)
        requires r1 == n % 0x100_0000, a == n / 0x100_0000, n == a * 0x100_0000 + r1, 0 <= r1 < 0x100_0000;
    assert(n % 0x100 == r1 % 0x100) by (nonlinear_arith)
        requires r1 == n % 0x100_0000, a == n / 0x100_0000, n == a * 0x100_0000 + r1, 0 <= r1 < 0x100_0000;
    assert(r1 == (r1 / 0x1_0000) * 0x1_0000 + (r1 % 0x1_0000) / 0x100 * 0x100 + r1 % 0x100) by (nonlinear_arith)
        requires 0 <= r1 < 0x100_0000;
    assert(b[0] == a);
    assert(b[1] == r1 / 0x1_0000);
    assert(b[2] == (r1 % 0x1_0000) / 0x100);
    assert(b[3] == r1 % 0x100);
}

/// `b.len()`: the number of bytes held.
#[verifier::external_body]
pub(crate) fn buf_len(b: &BytesMut) -> (n: usize)
    ensures
        n == buf_contents(*b).len(),
{
    b.len()
}

/// `b[i]` (through `Deref<Target = [u8]>`): the byte at position `i`.
#[verifier::external_body]
pub(crate) fn buf_byte(b: &BytesMut, i: usize) -> (x: u8)
    requires
        i < buf_contents(*b).len(),
    ensures
        x == buf_contents(*b)[i as int],
{
    b[i]
}

/// `BytesMut::reserve`: grows the capacity only; the bytes held stay the same.
#[verifier::external_body]
pub(crate) fn buf_reserve(b: &mut BytesMut, additional: usize)
    requires
        buf_contents(*old(b)).len() + additional <= isize::MAX,
    ensures
        buf_contents(*final(b)) == buf_contents(*old(b)),
{
    b.reserve(additional);
}

/// `Buf::advance`: drops the first `cnt` bytes.
#[verifier::external_body]
pub(crate) fn buf_advance(b: &mut BytesMut, cnt: usize)
    requires
        cnt <= buf_contents(*old(b)).len(),
    ensures
        buf_contents(*final(b)) == buf_contents(*old(b)).skip(cnt as int),
{
    bytes::Buf::advance(b, cnt);
}

/// `BytesMut::split_to`: hands out the first `at` bytes and keeps the rest.
#[verifier::external_body]
pub(crate) fn buf_split_to(b: &mut BytesMut, at: usize) -> (front: BytesMut)
    requires
        at <= buf_contents(*old(b)).len(),
    ensures
        buf_contents(front) == buf_contents(*old(b)).take(at as int),
        buf_contents(*final(b)) == buf_contents(*old(b)).skip(at as int),
{
    b.split_to(at)
}

/// `BufMut::put_u32`: appends the four bytes of `n`, most significant first.
#[verifier::external_body]
pub(crate) fn buf_put_u32(b: &mut BytesMut, n: u32)
    requires
        buf_contents(*old(b)).len() + 4 <= isize::MAX,
    ensures
        buf_contents(*final(b)) == buf_contents(*old(b)) + be_u32_bytes(n),
{
    bytes::BufMut::put_u32(b, n);
}

/// `BytesMut::extend_from_slice`: appends the bytes of `s`.
#[verifier::external_body]
pub(crate) fn buf_extend_from_slice(b: &mut BytesMut, s: &[u8])
    requires
        buf_contents(*old(b)).len() + s@.len() <= isize::MAX,
    ensures
        buf_contents(*final(b)) == buf_contents(*old(b)) + s@,
{
    b.extend_from_slice(s);
}

} // verus!
