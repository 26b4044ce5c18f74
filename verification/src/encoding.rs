//! Byte strings: equality, hexadecimal text, compressed curve points.

use vstd::prelude::*;

verus! {

/// The lower-case hexadecimal digit of a value below sixteen.
pub open spec fn hex_digit(nibble: int) -> char {
    seq!['0', '1', '2', '3', '4', '5', '6', '7', '8', '9', 'a', 'b', 'c', 'd', 'e', 'f'][nibble]
}

/// The lower-case hexadecimal text of `bytes`, two digits for each byte, the
/// high half first.
pub open spec fn hex_text(bytes: Seq<u8>) -> Seq<char> {
    Seq::new(
        2 * bytes.len(),
        |i: int| if i % 2 == 0 {
            hex_digit((bytes[i / 2] / 16) as int)
        } else {
            hex_digit((bytes[i / 2] % 16) as int)
        },
    )
}

/// The hexadecimal text of `bytes` behind the prefix `0x`.
pub open spec fn prefixed_hex(bytes: Seq<u8>) -> Seq<char> {
    seq!['0', 'x'] + hex_text(bytes)
}

/// The compressed form of an uncompressed curve point of 65 bytes: a tag that
/// tells whether the second coordinate is even (2) or odd (3), then the 32
/// bytes of the first coordinate.
pub open spec fn compressed_point(point: Seq<u8>) -> Seq<u8> {
    seq![(2 + point[64] % 2) as u8] + point.subrange(1, 33)
}

/// Calls `hex::encode_prefixed` of alloy-primitives, which writes `0x` and
/// then two lower-case hexadecimal digits for each byte.
#[verifier::external_body]
fn encode_prefixed(bytes: &Vec<u8>) -> (res: String)
    ensures
        res@ == prefixed_hex(bytes@),
{
    alloy_primitives::hex::encode_prefixed(bytes.as_slice())
}

/// Whether two byte arrays of one length hold the same bytes.
pub fn bytes_equal<const N: usize>(a: &[u8; N], b: &[u8; N]) -> (res: bool)
    ensures
        res == (a@ == b@),
{
    let mut i: usize = 0;
    while i < N
        invariant
            i <= N,
            forall|j: int| 0 <= j < i ==> a@[j] == b@[j],
        decreases N - i,
    {
        if a[i] != b[i] {
            return false;
        }
        i = i + 1;
    }
    assert(a@ =~= b@);
    true
}

/// The bytes of `bytes` from `from` up to and without `to`.
pub fn copy_range(bytes: &Vec<u8>, from: usize, to: usize) -> (res: Vec<u8>)
    requires
        from <= to <= bytes@.len(),
    ensures
        res@ == bytes@.subrange(from as int, to as int),
{
    let mut out: Vec<u8> = Vec::new();
    let mut i: usize = from;
    while i < to
        invariant
            from <= i <= to,
            to <= bytes@.len(),
            out@ == bytes@.subrange(from as int, i as int),
        decreases to - i,
    {
        out.push(bytes[i]);
        assert(out@ =~= bytes@.subrange(from as int, i + 1));
        i = i + 1;
    }
    out
}

/// Compresses an uncompressed curve point of 65 bytes.
pub fn compress_point(point: &Vec<u8>) -> (res: Vec<u8>)
    requires
        point@.len() == 65,
    ensures
        res@ == compressed_point(point@),
{
    let mut out: Vec<u8> = Vec::new();
    out.push(2 + point[64] % 2);
    let mut i: usize = 1;
    while i < 33
        invariant
            1 <= i <= 33,
            point@.len() == 65,
            out@ == seq![(2 + point@[64] % 2) as u8] + point@.subrange(1, i as int),
        decreases 33 - i,
    {
        out.push(point[i]);
        assert(out@ =~= seq![(2 + point@[64] % 2) as u8] + point@.subrange(1, i + 1));
        i = i + 1;
    }
    out
}

/// The hexadecimal text of `bytes` behind the prefix `0x`, as a string.
pub fn to_prefixed_hex(bytes: &Vec<u8>) -> (res: String)
    ensures
        res@ == prefixed_hex(bytes@),
{
    encode_prefixed(bytes)
}

} // verus!
