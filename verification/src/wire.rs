//! Big-endian integers on the wire: what a run of bytes means as a number,
//! what bytes a number is written as, and the reads and writes of the `bytes`
//! crate that the codecs use.
use vstd::prelude::*;

verus! {

/// The unsigned value of two bytes, most significant first.
pub open spec fn be16(b0: u8, b1: u8) -> u16 {
    ((b0 as u16) << 8u16) | (b1 as u16)
}

/// The unsigned value of four bytes, most significant first.
pub open spec fn be32(b0: u8, b1: u8, b2: u8, b3: u8) -> u32 {
    ((b0 as u32) << 24u32) | ((b1 as u32) << 16u32) | ((b2 as u32) << 8u32) | (b3 as u32)
}

/// The unsigned value of eight bytes, most significant first.
pub open spec fn be64(b0: u8, b1: u8, b2: u8, b3: u8, b4: u8, b5: u8, b6: u8, b7: u8) -> u64 {
    ((b0 as u64) << 56u64) | ((b1 as u64) << 48u64) | ((b2 as u64) << 40u64) | ((b3 as u64)
        << 32u64) | ((b4 as u64) << 24u64) | ((b5 as u64) << 16u64) | ((b6 as u64) << 8u64) | (
    b7 as u64)
}

/// The `u16` stored big-endian at `s[i..i + 2]`.
pub open spec fn u16_at(s: Seq<u8>, i: int) -> u16 {
    be16(s[i], s[i + 1])
}

/// The `u32` stored big-endian at `s[i..i + 4]`.
pub open spec fn u32_at(s: Seq<u8>, i: int) -> u32 {
    be32(s[i], s[i + 1], s[i + 2], s[i + 3])
}

/// The `u64` stored big-endian at `s[i..i + 8]`.
pub open spec fn u64_at(s: Seq<u8>, i: int) -> u64 {
    be64(s[i], s[i + 1], s[i + 2], s[i + 3], s[i + 4], s[i + 5], s[i + 6], s[i + 7])
}

/// The `u128` stored big-endian at `s[i..i + 16]`.
pub open spec fn u128_at(s: Seq<u8>, i: int) -> u128 {
    ((u64_at(s, i) as u128) << 64u128) | (u64_at(s, i + 8) as u128)
}

/// The two's complement `i16` stored big-endian at `s[i..i + 2]`.
pub open spec fn i16_at(s: Seq<u8>, i: int) -> i16 {
    u16_at(s, i) as i16
}

/// The two's complement `i32` stored big-endian at `s[i..i + 4]`.
pub open spec fn i32_at(s: Seq<u8>, i: int) -> i32 {
    u32_at(s, i) as i32
}

/// The two's complement `i64` stored big-endian at `s[i..i + 8]`.
pub open spec fn i64_at(s: Seq<u8>, i: int) -> i64 {
    u64_at(s, i) as i64
}

/// The bytes of `v`, most significant first.
pub open spec fn u16_bytes(v: u16) -> Seq<u8> {
    seq![(v >> 8u16) as u8, v as u8]
}

/// The bytes of `v`, most significant first.
pub open spec fn u32_bytes(v: u32) -> Seq<u8> {
    seq![(v >> 24u32) as u8, (v >> 16u32) as u8, (v >> 8u32) as u8, v as u8]
}

/// The bytes of `v`, most significant first.
pub open spec fn u64_bytes(v: u64) -> Seq<u8> {
    seq![
        (v >> 56u64) as u8,
        (v >> 48u64) as u8,
        (v >> 40u64) as u8,
        (v >> 32u64) as u8,
        (v >> 24u64) as u8,
        (v >> 16u64) as u8,
        (v >> 8u64) as u8,
        v as u8,
    ]
}

/// The bytes of `v`, most significant first.
pub open spec fn u128_bytes(v: u128) -> Seq<u8> {
    u64_bytes((v >> 64u128) as u64) + u64_bytes(v as u64)
}

/// The two's complement bytes of `v`, most significant first.
pub open spec fn i16_bytes(v: i16) -> Seq<u8> {
    u16_bytes(v as u16)
}

/// The two's complement bytes of `v`, most significant first.
pub open spec fn i32_bytes(v: i32) -> Seq<u8> {
    u32_bytes(v as u32)
}

/// The two's complement bytes of `v`, most significant first.
pub open spec fn i64_bytes(v: i64) -> Seq<u8> {
    u64_bytes(v as u64)
}

/// Writing a `u16` and reading it back gives the same number.
pub proof fn lemma_u16_roundtrip(v: u16)
    ensures
        u16_bytes(v).len() == 2,
        u16_at(u16_bytes(v), 0) == v,
{
    let s = u16_bytes(v);
    assert(s[0] == (v >> 8u16) as u8 && s[1] == v as u8);
    assert(be16((v >> 8u16) as u8, v as u8) == v) by (bit_vector);
}

/// Writing a `u32` and reading it back gives the same number.
pub proof fn lemma_u32_roundtrip(v: u32)
    ensures
        u32_bytes(v).len() == 4,
        u32_at(u32_bytes(v), 0) == v,
{
    assert(be32((v >> 24u32) as u8, (v >> 16u32) as u8, (v >> 8u32) as u8, v as u8) == v)
        by (bit_vector);
}

/// Writing a `u64` and reading it back gives the same number.
pub proof fn lemma_u64_roundtrip(v: u64)
    ensures
        u64_bytes(v).len() == 8,
        u64_at(u64_bytes(v), 0) == v,
{
    assert(be64(
        (v >> 56u64) as u8,
        (v >> 48u64) as u8,
        (v >> 40u64) as u8,
        (v >> 32u64) as u8,
        (v >> 24u64) as u8,
        (v >> 16u64) as u8,
        (v >> 8u64) as u8,
        v as u8,
    ) == v) by (bit_vector);
}

/// Writing a `u128` and reading it back gives the same number.
pub proof fn lemma_u128_roundtrip(v: u128)
    ensures
        u128_bytes(v).len() == 16,
        u128_at(u128_bytes(v), 0) == v,
{
    let (hi, lo) = ((v >> 64u128) as u64, v as u64);
    lemma_u64_roundtrip(hi);
    lemma_u64_roundtrip(lo);
    let s = u128_bytes(v);
    assert(s.subrange(0, 8) =~= u64_bytes(hi));
    assert(s.subrange(8, 16) =~= u64_bytes(lo));
    assert(u64_at(s, 0) == u64_at(u64_bytes(hi), 0));
    assert(u64_at(s, 8) == u64_at(u64_bytes(lo), 0));
    assert(((hi as u128) << 64u128) | (lo as u128) == v) by (bit_vector)
        requires
            hi == (v >> 64u128) as u64,
            lo == v as u64,
    ;
}

/// Writing an `i16` and reading it back gives the same number.
pub proof fn lemma_i16_roundtrip(v: i16)
    ensures
        i16_bytes(v).len() == 2,
        i16_at(i16_bytes(v), 0) == v,
{
    lemma_u16_roundtrip(v as u16);
    assert(((v as u16) as i16) == v) by (bit_vector);
}

/// Writing an `i32` and reading it back gives the same number.
pub proof fn lemma_i32_roundtrip(v: i32)
    ensures
        i32_bytes(v).len() == 4,
        i32_at(i32_bytes(v), 0) == v,
{
    lemma_u32_roundtrip(v as u32);
    assert(((v as u32) as i32) == v) by (bit_vector);
}

/// Writing an `i64` and reading it back gives the same number.
pub proof fn lemma_i64_roundtrip(v: i64)
    ensures
        i64_bytes(v).len() == 8,
        i64_at(i64_bytes(v), 0) == v,
{
    lemma_u64_roundtrip(v as u64);
    assert(((v as u64) as i64) == v) by (bit_vector);
}

/// Reading two bytes as a `u16` and writing it gives the same bytes.
pub proof fn lemma_u16_bytes_of_read(s: Seq<u8>, i: int)
    requires
        0 <= i && i + 2 <= s.len(),
    ensures
        u16_bytes(u16_at(s, i)) == s.subrange(i, i + 2),
{
    let (b0, b1) = (s[i], s[i + 1]);
    assert(((be16(b0, b1) >> 8u16) as u8) == b0 && (be16(b0, b1) as u8) == b1) by (bit_vector);
    assert(u16_bytes(u16_at(s, i)) =~= s.subrange(i, i + 2));
}

/// Reading four bytes as a `u32` and writing it gives the same bytes.
pub proof fn lemma_u32_bytes_of_read(s: Seq<u8>, i: int)
    requires
        0 <= i && i + 4 <= s.len(),
    ensures
        u32_bytes(u32_at(s, i)) == s.subrange(i, i + 4),
{
    let (b0, b1, b2, b3) = (s[i], s[i + 1], s[i + 2], s[i + 3]);
    assert({
        let v = be32(b0, b1, b2, b3);
        &&& (v >> 24u32) as u8 == b0
        &&& (v >> 16u32) as u8 == b1
        &&& (v >> 8u32) as u8 == b2
        &&& v as u8 == b3
    }) by (bit_vector);
    assert(u32_bytes(u32_at(s, i)) =~= s.subrange(i, i + 4));
}

/// Reading eight bytes as a `u64` and writing it gives the same bytes.
pub proof fn lemma_u64_bytes_of_read(s: Seq<u8>, i: int)
    requires
        0 <= i && i + 8 <= s.len(),
    ensures
        u64_bytes(u64_at(s, i)) == s.subrange(i, i + 8),
{
    let (b0, b1, b2, b3) = (s[i], s[i + 1], s[i + 2], s[i + 3]);
    let (b4, b5, b6, b7) = (s[i + 4], s[i + 5], s[i + 6], s[i + 7]);
    assert({
        let v = be64(b0, b1, b2, b3, b4, b5, b6, b7);
        &&& (v >> 56u64) as u8 == b0
        &&& (v >> 48u64) as u8 == b1
        &&& (v >> 40u64) as u8 == b2
        &&& (v >> 32u64) as u8 == b3
        &&& (v >> 24u64) as u8 == b4
        &&& (v >> 16u64) as u8 == b5
        &&& (v >> 8u64) as u8 == b6
        &&& v as u8 == b7
    }) by (bit_vector);
    assert(u64_bytes(u64_at(s, i)) =~= s.subrange(i, i + 8));
}

/// Reading sixteen bytes as a `u128` and writing it gives the same bytes.
pub proof fn lemma_u128_bytes_of_read(s: Seq<u8>, i: int)
    requires
        0 <= i && i + 16 <= s.len(),
    ensures
        u128_bytes(u128_at(s, i)) == s.subrange(i, i + 16),
{
    let (hi, lo) = (u64_at(s, i), u64_at(s, i + 8));
    let v = u128_at(s, i);
    assert((v >> 64u128) as u64 == hi && v as u64 == lo) by (bit_vector)
        requires
            v == ((hi as u128) << 64u128) | (lo as u128),
    ;
    lemma_u64_bytes_of_read(s, i);
    lemma_u64_bytes_of_read(s, i + 8);
    assert(u128_bytes(v) =~= s.subrange(i, i + 16));
}

/// Reading two bytes as an `i16` and writing it gives the same bytes.
pub proof fn lemma_i16_bytes_of_read(s: Seq<u8>, i: int)
    requires
        0 <= i && i + 2 <= s.len(),
    ensures
        i16_bytes(i16_at(s, i)) == s.subrange(i, i + 2),
{
    let v = u16_at(s, i);
    assert(((v as i16) as u16) == v) by (bit_vector);
    lemma_u16_bytes_of_read(s, i);
}

/// Reading four bytes as an `i32` and writing it gives the same bytes.
pub proof fn lemma_i32_bytes_of_read(s: Seq<u8>, i: int)
    requires
        0 <= i && i + 4 <= s.len(),
    ensures
        i32_bytes(i32_at(s, i)) == s.subrange(i, i + 4),
{
    let v = u32_at(s, i);
    assert(((v as i32) as u32) == v) by (bit_vector);
    lemma_u32_bytes_of_read(s, i);
}

/// Reading eight bytes as an `i64` and writing it gives the same bytes.
pub proof fn lemma_i64_bytes_of_read(s: Seq<u8>, i: int)
    requires
        0 <= i && i + 8 <= s.len(),
    ensures
        i64_bytes(i64_at(s, i)) == s.subrange(i, i + 8),
{
    let v = u64_at(s, i);
    assert(((v as i64) as u64) == v) by (bit_vector);
    lemma_u64_bytes_of_read(s, i);
}

/// `bytes::Buf::get_u8` on the slice `buf[pos..]`: the byte at `pos`.
#[verifier::external_body]
pub(crate) fn get_u8(buf: &[u8], pos: usize) -> (r: u8)
    requires
        pos < buf@.len(),
    ensures
        r == buf@[pos as int],
{
    let mut rest = &buf[pos..];
    bytes::Buf::get_u8(&mut rest)
}

/// `bytes::Buf::get_u16` on the slice `buf[pos..]`: the big-endian `u16` at `pos`.
#[verifier::external_body]
pub(crate) fn get_u16(buf: &[u8], pos: usize) -> (r: u16)
    requires
        pos + 2 <= buf@.len(),
    ensures
        r == u16_at(buf@, pos as int),
{
    let mut rest = &buf[pos..];
    bytes::Buf::get_u16(&mut rest)
}

/// `bytes::Buf::get_i16` on the slice `buf[pos..]`: the big-endian `i16` at `pos`.
#[verifier::external_body]
pub(crate) fn get_i16(buf: &[u8], pos: usize) -> (r: i16)
    requires
        pos + 2 <= buf@.len(),
    ensures
        r == i16_at(buf@, pos as int),
{
    let mut rest = &buf[pos..];
    bytes::Buf::get_i16(&mut rest)
}

/// `bytes::Buf::get_u32` on the slice `buf[pos..]`: the big-endian `u32` at `pos`.
#[verifier::external_body]
pub(crate) fn get_u32(buf: &[u8], pos: usize) -> (r: u32)
    requires
        pos + 4 <= buf@.len(),
    ensures
        r == u32_at(buf@, pos as int),
{
    let mut rest = &buf[pos..];
    bytes::Buf::get_u32(&mut rest)
}

/// `bytes::Buf::get_i32` on the slice `buf[pos..]`: the big-endian `i32` at `pos`.
#[verifier::external_body]
pub(crate) fn get_i32(buf: &[u8], pos: usize) -> (r: i32)
    requires
        pos + 4 <= buf@.len(),
    ensures
        r == i32_at(buf@, pos as int),
{
    let mut rest = &buf[pos..];
    bytes::Buf::get_i32(&mut rest)
}

/// `bytes::Buf::get_i64` on the slice `buf[pos..]`: the big-endian `i64` at `pos`.
#[verifier::external_body]
pub(crate) fn get_i64(buf: &[u8], pos: usize) -> (r: i64)
    requires
        pos + 8 <= buf@.len(),
    ensures
        r == i64_at(buf@, pos as int),
{
    let mut rest = &buf[pos..];
    bytes::Buf::get_i64(&mut rest)
}

/// `bytes::Buf::get_u64` on the slice `buf[pos..]`: the big-endian `u64` at `pos`.
#[verifier::external_body]
pub(crate) fn get_u64(buf: &[u8], pos: usize) -> (r: u64)
    requires
        pos + 8 <= buf@.len(),
    ensures
        r == u64_at(buf@, pos as int),
{
    let mut rest = &buf[pos..];
    bytes::Buf::get_u64(&mut rest)
}

/// `bytes::Buf::get_u128` on the slice `buf[pos..]`: the big-endian `u128` at `pos`.
#[verifier::external_body]
pub(crate) fn get_u128(buf: &[u8], pos: usize) -> (r: u128)
    requires
        pos + 16 <= buf@.len(),
    ensures
        r == u128_at(buf@, pos as int),
{
    let mut rest = &buf[pos..];
    bytes::Buf::get_u128(&mut rest)
}

/// `bytes::BufMut::put_u8` on a `Vec<u8>`: appends the byte.
#[verifier::external_body]
pub(crate) fn put_u8(buf: &mut Vec<u8>, v: u8)
    ensures
        final(buf)@ == old(buf)@.push(v),
{
    bytes::BufMut::put_u8(buf, v)
}

/// `bytes::BufMut::put_u16` on a `Vec<u8>`: appends the two big-endian bytes of `v`.
#[verifier::external_body]
pub(crate) fn put_u16(buf: &mut Vec<u8>, v: u16)
    ensures
        final(buf)@ == old(buf)@ + u16_bytes(v),
{
    bytes::BufMut::put_u16(buf, v)
}

/// `bytes::BufMut::put_i16` on a `Vec<u8>`: appends the two big-endian bytes of `v`.
#[verifier::external_body]
pub(crate) fn put_i16(buf: &mut Vec<u8>, v: i16)
    ensures
        final(buf)@ == old(buf)@ + i16_bytes(v),
{
    bytes::BufMut::put_i16(buf, v)
}

/// `bytes::BufMut::put_u32` on a `Vec<u8>`: appends the four big-endian bytes of `v`.
#[verifier::external_body]
pub(crate) fn put_u32(buf: &mut Vec<u8>, v: u32)
    ensures
        final(buf)@ == old(buf)@ + u32_bytes(v),
{
    bytes::BufMut::put_u32(buf, v)
}

/// `bytes::BufMut::put_i32` on a `Vec<u8>`: appends the four big-endian bytes of `v`.
#[verifier::external_body]
pub(crate) fn put_i32(buf: &mut Vec<u8>, v: i32)
    ensures
        final(buf)@ == old(buf)@ + i32_bytes(v),
{
    bytes::BufMut::put_i32(buf, v)
}

/// `bytes::BufMut::put_i64` on a `Vec<u8>`: appends the eight big-endian bytes of `v`.
#[verifier::external_body]
pub(crate) fn put_i64(buf: &mut Vec<u8>, v: i64)
    ensures
        final(buf)@ == old(buf)@ + i64_bytes(v),
{
    bytes::BufMut::put_i64(buf, v)
}

/// `bytes::BufMut::put_u64` on a `Vec<u8>`: appends the eight big-endian bytes of `v`.
#[verifier::external_body]
pub(crate) fn put_u64(buf: &mut Vec<u8>, v: u64)
    ensures
        final(buf)@ == old(buf)@ + u64_bytes(v),
{
    bytes::BufMut::put_u64(buf, v)
}

/// `bytes::BufMut::put_u128` on a `Vec<u8>`: appends the sixteen big-endian bytes of `v`.
#[verifier::external_body]
pub(crate) fn put_u128(buf: &mut Vec<u8>, v: u128)
    ensures
        final(buf)@ == old(buf)@ + u128_bytes(v),
{
    bytes::BufMut::put_u128(buf, v)
}

/// `bytes::BufMut::put_slice` on a `Vec<u8>`: appends the bytes of `src`.
#[verifier::external_body]
pub(crate) fn put_slice(buf: &mut Vec<u8>, src: &[u8])
    ensures
        final(buf)@ == old(buf)@ + src@,
{
    bytes::BufMut::put_slice(buf, src)
}

/// The shared byte buffer of the `bytes` crate.
#[verifier::external_type_specification]
#[verifier::external_body]
pub struct ExBytes(bytes::Bytes);

/// The bytes that a `bytes::Bytes` holds.
pub uninterp spec fn bytes_content(b: bytes::Bytes) -> Seq<u8>;

/// `bytes::Bytes::copy_from_slice`: a buffer holding a copy of `data`.
#[verifier::external_body]
pub(crate) fn bytes_copy_from_slice(data: &[u8]) -> (r: bytes::Bytes)
    ensures
        bytes_content(r) == data@,
{
    bytes::Bytes::copy_from_slice(data)
}

/// `bytes::Bytes` dereferenced to a slice: the bytes it holds.
#[verifier::external_body]
pub(crate) fn bytes_as_slice(b: &bytes::Bytes) -> (r: &[u8])
    ensures
        r@ == bytes_content(*b),
{
    &b[..]
}

/// `bytes::Bytes::clone`: another handle on the same bytes.
#[verifier::external_body]
pub(crate) fn bytes_clone(b: &bytes::Bytes) -> (r: bytes::Bytes)
    ensures
        bytes_content(r) == bytes_content(*b),
{
    b.clone()
}

} // verus!
