//! Little-endian field codec shared by every message body.
//!
//! The spec functions give the wire image of each scalar and fixed-length
//! array; the executable readers and writers are proved, or trusted, against
//! them.

use byteorder::{ByteOrder, LittleEndian, WriteBytesExt};
use vstd::prelude::*;

verus! {

/// A 32-bit IEEE 754 value, held as its bit pattern.
pub type Ieee32 = u32;

/// Whether the bits are those of a NaN.
pub open spec fn spec_ieee32_is_nan(a: Ieee32) -> bool {
    a & 0x7f80_0000 == 0x7f80_0000 && a & 0x007f_ffff != 0
}

/// Equality of the two numbers as IEEE 754 has it: a NaN equals nothing,
/// the two zeros equal each other, and any other number equals only what
/// has its bits.
pub open spec fn spec_ieee32_eq(a: Ieee32, b: Ieee32) -> bool {
    !spec_ieee32_is_nan(a) && !spec_ieee32_is_nan(b) && (a == b || (a | b) & 0x7fff_ffff == 0)
}

/// Whether the two bit patterns stand for equal numbers.
pub fn ieee32_eq(a: Ieee32, b: Ieee32) -> (r: bool)
    ensures
        r == spec_ieee32_eq(a, b),
{
    let a_nan = a & 0x7f80_0000 == 0x7f80_0000 && a & 0x007f_ffff != 0;
    let b_nan = b & 0x7f80_0000 == 0x7f80_0000 && b & 0x007f_ffff != 0;
    !a_nan && !b_nan && (a == b || (a | b) & 0x7fff_ffff == 0)
}

/// The two bytes of `x`, least significant first.
pub open spec fn le16(x: u16) -> Seq<u8> {
    seq![(x % 0x100) as u8, (x / 0x100) as u8]
}

/// The four bytes of `x`, least significant first.
pub open spec fn le32(x: u32) -> Seq<u8> {
    seq![
        (x % 0x100) as u8,
        (x / 0x100 % 0x100) as u8,
        (x / 0x1_0000 % 0x100) as u8,
        (x / 0x100_0000) as u8,
    ]
}

/// The eight bytes of `x`, least significant first.
pub open spec fn le64(x: u64) -> Seq<u8> {
    seq![
        (x % 0x100) as u8,
        (x / 0x100 % 0x100) as u8,
        (x / 0x1_0000 % 0x100) as u8,
        (x / 0x100_0000 % 0x100) as u8,
        (x / 0x1_0000_0000 % 0x100) as u8,
        (x / 0x100_0000_0000 % 0x100) as u8,
        (x / 0x1_0000_0000_0000 % 0x100) as u8,
        (x / 0x100_0000_0000_0000) as u8,
    ]
}

/// The unsigned 16-bit value of two bytes, least significant first.
pub open spec fn u16_of(b: Seq<u8>) -> u16 {
    (b[0] as int + 0x100 * b[1] as int) as u16
}

/// The unsigned 32-bit value of four bytes, least significant first.
pub open spec fn u32_of(b: Seq<u8>) -> u32 {
    (b[0] as int + 0x100 * b[1] as int + 0x1_0000 * b[2] as int + 0x100_0000 * b[3] as int) as u32
}

/// The unsigned 64-bit value of eight bytes, least significant first.
pub open spec fn u64_of(b: Seq<u8>) -> u64 {
    (b[0] as int + 0x100 * b[1] as int + 0x1_0000 * b[2] as int + 0x100_0000 * b[3] as int
        + 0x1_0000_0000 * b[4] as int + 0x100_0000_0000 * b[5] as int + 0x1_0000_0000_0000
        * b[6] as int + 0x100_0000_0000_0000 * b[7] as int) as u64
}

/// The unsigned 16-bit value stored at offset `o` of `p`.
pub open spec fn u16_at(p: Seq<u8>, o: int) -> u16 {
    u16_of(p.subrange(o, o + 2))
}

/// The unsigned 32-bit value stored at offset `o` of `p`.
pub open spec fn u32_at(p: Seq<u8>, o: int) -> u32 {
    u32_of(p.subrange(o, o + 4))
}

/// The unsigned 64-bit value stored at offset `o` of `p`.
pub open spec fn u64_at(p: Seq<u8>, o: int) -> u64 {
    u64_of(p.subrange(o, o + 8))
}

/// `byteorder`'s `LittleEndian::read_u16` on the bytes of `buf` from `at`:
/// the value of the two bytes found there, least significant first.
#[verifier::external_body]
pub(crate) fn read_u16(buf: &[u8], at: usize) -> (r: u16)
    requires
        at + 2 <= buf@.len(),
    ensures
        r == u16_at(buf@, at as int),
{
    LittleEndian::read_u16(&buf[at..])
}

/// `byteorder`'s `LittleEndian::read_u32` on the bytes of `buf` from `at`:
/// the value of the four bytes found there, least significant first.
#[verifier::external_body]
pub(crate) fn read_u32(buf: &[u8], at: usize) -> (r: u32)
    requires
        at + 4 <= buf@.len(),
    ensures
        r == u32_at(buf@, at as int),
{
    LittleEndian::read_u32(&buf[at..])
}

/// `byteorder`'s `LittleEndian::read_u64` on the bytes of `buf` from `at`:
/// the value of the eight bytes found there, least significant first.
#[verifier::external_body]
pub(crate) fn read_u64(buf: &[u8], at: usize) -> (r: u64)
    requires
        at + 8 <= buf@.len(),
    ensures
        r == u64_at(buf@, at as int),
{
    LittleEndian::read_u64(&buf[at..])
}

/// `byteorder`'s `WriteBytesExt::write_u16` with `LittleEndian` on a vector:
/// appends the two bytes of `x`, least significant first.
#[verifier::external_body]
pub(crate) fn write_u16(out: &mut Vec<u8>, x: u16)
    ensures
        final(out)@ == old(out)@ + le16(x),
{
    out.write_u16::<LittleEndian>(x).unwrap();
}

/// `byteorder`'s `WriteBytesExt::write_u32` with `LittleEndian` on a vector:
/// appends the four bytes of `x`, least significant first.
#[verifier::external_body]
pub(crate) fn write_u32(out: &mut Vec<u8>, x: u32)
    ensures
        final(out)@ == old(out)@ + le32(x),
{
    out.write_u32::<LittleEndian>(x).unwrap();
}

/// `byteorder`'s `WriteBytesExt::write_u64` with `LittleEndian` on a vector:
/// appends the eight bytes of `x`, least significant first.
#[verifier::external_body]
pub(crate) fn write_u64(out: &mut Vec<u8>, x: u64)
    ensures
        final(out)@ == old(out)@ + le64(x),
{
    out.write_u64::<LittleEndian>(x).unwrap();
}

/// Two bytes are written, and reading them back gives the value.
pub proof fn lemma_le16(x: u16)
    ensures
        le16(x).len() == 2,
        u16_of(le16(x)) == x,
{
}

/// Four bytes are written, and reading them back gives the value.
pub proof fn lemma_le32(x: u32)
    ensures
        le32(x).len() == 4,
        u32_of(le32(x)) == x,
{
}

/// Eight bytes are written, and reading them back gives the value.
pub proof fn lemma_le64(x: u64)
    ensures
        le64(x).len() == 8,
        u64_of(le64(x)) == x,
{
    let s = le64(x);
    assert(x == (x % 0x100) + 0x100 * (x / 0x100 % 0x100) + 0x1_0000 * (x / 0x1_0000 % 0x100)
        + 0x100_0000 * (x / 0x100_0000 % 0x100) + 0x1_0000_0000 * (x / 0x1_0000_0000 % 0x100)
        + 0x100_0000_0000 * (x / 0x100_0000_0000 % 0x100) + 0x1_0000_0000_0000 * (x
        / 0x1_0000_0000_0000 % 0x100) + 0x100_0000_0000_0000 * (x / 0x100_0000_0000_0000))
        by (bit_vector);
    assert(s[0] == x % 0x100);
    assert(s[1] == x / 0x100 % 0x100);
    assert(s[2] == x / 0x1_0000 % 0x100);
    assert(s[3] == x / 0x100_0000 % 0x100);
    assert(s[4] == x / 0x1_0000_0000 % 0x100);
    assert(s[5] == x / 0x100_0000_0000 % 0x100);
    assert(s[6] == x / 0x1_0000_0000_0000 % 0x100);
    assert(s[7] == x / 0x100_0000_0000_0000);
}

/// A signed byte is stored as the unsigned byte with the same bits.
pub proof fn lemma_signed8(x: i8)
    ensures
        ((x as u8) as i8) == x,
{
    assert(((x as u8) as i8) == x) by (bit_vector);
}

/// A signed 16-bit value is stored as the unsigned value with the same bits.
pub proof fn lemma_signed16(x: i16)
    ensures
        ((x as u16) as i16) == x,
{
    assert(((x as u16) as i16) == x) by (bit_vector);
}

/// A signed 32-bit value is stored as the unsigned value with the same bits.
pub proof fn lemma_signed32(x: i32)
    ensures
        ((x as u32) as i32) == x,
{
    assert(((x as u32) as i32) == x) by (bit_vector);
}

/// A signed 64-bit value is stored as the unsigned value with the same bits.
pub proof fn lemma_signed64(x: i64)
    ensures
        ((x as u64) as i64) == x,
{
    assert(((x as u64) as i64) == x) by (bit_vector);
}

/// The array whose elements are those of `s`.
pub open spec fn array_of<T, const N: usize>(s: Seq<T>) -> [T; N] {
    choose|a: [T; N]| a@ == s
}

/// An array is the array of its own elements.
pub proof fn lemma_array_of<T, const N: usize>(a: [T; N])
    ensures
        array_of::<T, N>(a@) == a,
{
    let b = array_of::<T, N>(a@);
    assert(b@ == a@);
    assert(b =~= a);
}

/// `w` begins with the bytes of `a`.
pub open spec fn starts(w: Seq<u8>, a: Seq<u8>) -> bool {
    a.len() <= w.len() && w.subrange(0, a.len() as int) == a
}

/// A sequence begins with itself, and with what follows nothing.
pub proof fn lemma_whole(w: Seq<u8>, first: Seq<u8>)
    ensures
        starts(w, w),
        Seq::<u8>::empty() + first == first,
{
    assert(w.subrange(0, w.len() as int) =~= w);
    assert(Seq::<u8>::empty() + first =~= first);
}

/// Where `w` begins with `a` followed by `b`, it begins with `a`, and `b`
/// is what it holds behind `a`.
pub proof fn lemma_piece(w: Seq<u8>, a: Seq<u8>, b: Seq<u8>)
    requires
        starts(w, a + b),
    ensures
        starts(w, a),
        w.subrange(a.len() as int, (a.len() + b.len()) as int) == b,
{
    let ab = w.subrange(0, (a + b).len() as int);
    assert(w.subrange(0, a.len() as int) =~= ab.subrange(0, a.len() as int));
    assert(ab.subrange(0, a.len() as int) =~= a);
    assert(w.subrange(a.len() as int, (a.len() + b.len()) as int) =~= ab.subrange(
        a.len() as int,
        (a.len() + b.len()) as int,
    ));
    assert(ab.subrange(a.len() as int, (a.len() + b.len()) as int) =~= b);
}

/// The wire image of a byte.
pub open spec fn le8(x: u8) -> Seq<u8> {
    seq![x]
}

/// The wire image of an array of signed bytes.
pub open spec fn le8s_signed(v: Seq<i8>) -> Seq<u8> {
    Seq::new(v.len(), |i: int| v[i] as u8)
}

/// The wire image of an array of 16-bit values: element after element.
pub open spec fn le16s(v: Seq<u16>) -> Seq<u8> {
    Seq::new(2 * v.len(), |i: int| le16(v[i / 2])[i % 2])
}

/// The wire image of an array of signed 16-bit values.
pub open spec fn le16s_signed(v: Seq<i16>) -> Seq<u8> {
    Seq::new(2 * v.len(), |i: int| le16(v[i / 2] as u16)[i % 2])
}

/// The wire image of an array of 32-bit values: element after element.
pub open spec fn le32s(v: Seq<u32>) -> Seq<u8> {
    Seq::new(4 * v.len(), |i: int| le32(v[i / 4])[i % 4])
}

/// The signed bytes that `b` holds.
pub open spec fn i8s_of(b: Seq<u8>) -> Seq<i8> {
    Seq::new(b.len(), |i: int| b[i] as i8)
}

/// The 16-bit values that `b` holds, two bytes each.
pub open spec fn u16s_of(b: Seq<u8>) -> Seq<u16> {
    Seq::new(b.len() / 2, |i: int| u16_of(b.subrange(2 * i, 2 * i + 2)))
}

/// The signed 16-bit values that `b` holds, two bytes each.
pub open spec fn i16s_of(b: Seq<u8>) -> Seq<i16> {
    Seq::new(b.len() / 2, |i: int| u16_of(b.subrange(2 * i, 2 * i + 2)) as i16)
}

/// The 32-bit values that `b` holds, four bytes each.
pub open spec fn u32s_of(b: Seq<u8>) -> Seq<u32> {
    Seq::new(b.len() / 4, |i: int| u32_of(b.subrange(4 * i, 4 * i + 4)))
}

/// The `n` bytes at offset `o` of `p`.
pub open spec fn u8s_at(p: Seq<u8>, o: int, n: nat) -> Seq<u8> {
    p.subrange(o, o + n as int)
}

/// The `n` signed bytes at offset `o` of `p`.
pub open spec fn i8s_at(p: Seq<u8>, o: int, n: nat) -> Seq<i8> {
    i8s_of(p.subrange(o, o + n as int))
}

/// The `n` 16-bit values stored from offset `o` of `p`.
pub open spec fn u16s_at(p: Seq<u8>, o: int, n: nat) -> Seq<u16> {
    u16s_of(p.subrange(o, o + 2 * n))
}

/// The `n` signed 16-bit values stored from offset `o` of `p`.
pub open spec fn i16s_at(p: Seq<u8>, o: int, n: nat) -> Seq<i16> {
    i16s_of(p.subrange(o, o + 2 * n))
}

/// The `n` 32-bit values stored from offset `o` of `p`.
pub open spec fn u32s_at(p: Seq<u8>, o: int, n: nat) -> Seq<u32> {
    u32s_of(p.subrange(o, o + 4 * n))
}

/// Reading back an array of signed bytes gives the array.
pub proof fn lemma_le8s_signed(v: Seq<i8>)
    ensures
        le8s_signed(v).len() == v.len(),
        i8s_of(le8s_signed(v)) == v,
{
    assert forall|i: int| 0 <= i < v.len() implies i8s_of(le8s_signed(v))[i] == v[i] by {
        lemma_signed8(v[i]);
    }
    assert(i8s_of(le8s_signed(v)) =~= v);
}

/// Reading back an array of 16-bit values gives the array.
pub proof fn lemma_le16s(v: Seq<u16>)
    ensures
        le16s(v).len() == 2 * v.len(),
        u16s_of(le16s(v)) == v,
{
    let b = le16s(v);
    assert forall|i: int| 0 <= i < v.len() implies u16_of(b.subrange(2 * i, 2 * i + 2)) == v[i] by {
        assert(b.subrange(2 * i, 2 * i + 2) =~= le16(v[i]));
        lemma_le16(v[i]);
    }
    assert(u16s_of(b) =~= v);
}

/// Reading back an array of signed 16-bit values gives the array.
pub proof fn lemma_le16s_signed(v: Seq<i16>)
    ensures
        le16s_signed(v).len() == 2 * v.len(),
        i16s_of(le16s_signed(v)) == v,
{
    let b = le16s_signed(v);
    assert forall|i: int| 0 <= i < v.len() implies u16_of(b.subrange(2 * i, 2 * i + 2))
        == v[i] as u16 by {
        assert(b.subrange(2 * i, 2 * i + 2) =~= le16(v[i] as u16));
        lemma_le16(v[i] as u16);
    }
    assert forall|i: int| 0 <= i < v.len() implies i16s_of(b)[i] == v[i] by {
        lemma_signed16(v[i]);
    }
    assert(i16s_of(b) =~= v);
}

/// Reading back an array of 32-bit values gives the array.
pub proof fn lemma_le32s(v: Seq<u32>)
    ensures
        le32s(v).len() == 4 * v.len(),
        u32s_of(le32s(v)) == v,
{
    let b = le32s(v);
    assert forall|i: int| 0 <= i < v.len() implies u32_of(b.subrange(4 * i, 4 * i + 4)) == v[i] by {
        let e = b.subrange(4 * i, 4 * i + 4);
        assert(e[0] == le32(v[i])[0]) by {
            assert((4 * i) / 4 == i && (4 * i) % 4 == 0);
        }
        assert(e[1] == le32(v[i])[1]) by {
            assert((4 * i + 1) / 4 == i && (4 * i + 1) % 4 == 1);
        }
        assert(e[2] == le32(v[i])[2]) by {
            assert((4 * i + 2) / 4 == i && (4 * i + 2) % 4 == 2);
        }
        assert(e[3] == le32(v[i])[3]) by {
            assert((4 * i + 3) / 4 == i && (4 * i + 3) % 4 == 3);
        }
        assert(e =~= le32(v[i]));
        lemma_le32(v[i]);
    }
    assert(u32s_of(b) =~= v);
}

/// Where `w` begins with `a` and the image of `x`, `x` is read behind `a`.
pub proof fn lemma_read_u8(w: Seq<u8>, a: Seq<u8>, x: u8)
    requires
        starts(w, a + le8(x)),
    ensures
        starts(w, a),
        (a + le8(x)).len() == a.len() + 1,
        w[a.len() as int] == x,
{
    lemma_piece(w, a, le8(x));
    assert(w.subrange(a.len() as int, a.len() as int + 1)[0] == w[a.len() as int]);
}

/// Where `w` begins with `a` and the image of `x`, `x` is read behind `a`.
pub proof fn lemma_read_i8(w: Seq<u8>, a: Seq<u8>, x: i8)
    requires
        starts(w, a + le8(x as u8)),
    ensures
        starts(w, a),
        (a + le8(x as u8)).len() == a.len() + 1,
        w[a.len() as int] as i8 == x,
{
    lemma_piece(w, a, le8(x as u8));
    assert(w.subrange(a.len() as int, a.len() as int + 1)[0] == w[a.len() as int]);
    lemma_signed8(x);
}

/// Where `w` begins with `a` and the image of `x`, `x` is read behind `a`.
pub proof fn lemma_read_u16(w: Seq<u8>, a: Seq<u8>, x: u16)
    requires
        starts(w, a + le16(x)),
    ensures
        starts(w, a),
        (a + le16(x)).len() == a.len() + 2,
        u16_at(w, a.len() as int) == x,
{
    lemma_piece(w, a, le16(x));
    lemma_le16(x);
}

/// Where `w` begins with `a` and the image of `x`, `x` is read behind `a`.
pub proof fn lemma_read_i16(w: Seq<u8>, a: Seq<u8>, x: i16)
    requires
        starts(w, a + le16(x as u16)),
    ensures
        starts(w, a),
        (a + le16(x as u16)).len() == a.len() + 2,
        u16_at(w, a.len() as int) as i16 == x,
{
    lemma_piece(w, a, le16(x as u16));
    lemma_le16(x as u16);
    lemma_signed16(x);
}

/// Where `w` begins with `a` and the image of `x`, `x` is read behind `a`.
pub proof fn lemma_read_u32(w: Seq<u8>, a: Seq<u8>, x: u32)
    requires
        starts(w, a + le32(x)),
    ensures
        starts(w, a),
        (a + le32(x)).len() == a.len() + 4,
        u32_at(w, a.len() as int) == x,
{
    lemma_piece(w, a, le32(x));
    lemma_le32(x);
}

/// Where `w` begins with `a` and the image of `x`, `x` is read behind `a`.
pub proof fn lemma_read_i32(w: Seq<u8>, a: Seq<u8>, x: i32)
    requires
        starts(w, a + le32(x as u32)),
    ensures
        starts(w, a),
        (a + le32(x as u32)).len() == a.len() + 4,
        u32_at(w, a.len() as int) as i32 == x,
{
    lemma_piece(w, a, le32(x as u32));
    lemma_le32(x as u32);
    lemma_signed32(x);
}

/// Where `w` begins with `a` and the image of `x`, `x` is read behind `a`.
pub proof fn lemma_read_u64(w: Seq<u8>, a: Seq<u8>, x: u64)
    requires
        starts(w, a + le64(x)),
    ensures
        starts(w, a),
        (a + le64(x)).len() == a.len() + 8,
        u64_at(w, a.len() as int) == x,
{
    lemma_piece(w, a, le64(x));
    lemma_le64(x);
}

/// Where `w` begins with `a` and the image of `x`, `x` is read behind `a`.
pub proof fn lemma_read_i64(w: Seq<u8>, a: Seq<u8>, x: i64)
    requires
        starts(w, a + le64(x as u64)),
    ensures
        starts(w, a),
        (a + le64(x as u64)).len() == a.len() + 8,
        u64_at(w, a.len() as int) as i64 == x,
{
    lemma_piece(w, a, le64(x as u64));
    lemma_le64(x as u64);
    lemma_signed64(x);
}

/// Where `w` begins with `a` and the image of the array `x`, `x` is read
/// behind `a`.
pub proof fn lemma_read_u8s<const N: usize>(w: Seq<u8>, a: Seq<u8>, x: [u8; N])
    requires
        starts(w, a + x@),
    ensures
        starts(w, a),
        (a + x@).len() == a.len() + N,
        array_of::<u8, N>(u8s_at(w, a.len() as int, N as nat)) == x,
{
    lemma_piece(w, a, x@);
    lemma_array_of(x);
}

/// Where `w` begins with `a` and the image of the array `x`, `x` is read
/// behind `a`.
pub proof fn lemma_read_i8s<const N: usize>(w: Seq<u8>, a: Seq<u8>, x: [i8; N])
    requires
        starts(w, a + le8s_signed(x@)),
    ensures
        starts(w, a),
        (a + le8s_signed(x@)).len() == a.len() + N,
        array_of::<i8, N>(i8s_at(w, a.len() as int, N as nat)) == x,
{
    lemma_piece(w, a, le8s_signed(x@));
    lemma_le8s_signed(x@);
    lemma_array_of(x);
}

/// Where `w` begins with `a` and the image of the array `x`, `x` is read
/// behind `a`.
pub proof fn lemma_read_u16s<const N: usize>(w: Seq<u8>, a: Seq<u8>, x: [u16; N])
    requires
        starts(w, a + le16s(x@)),
    ensures
        starts(w, a),
        (a + le16s(x@)).len() == a.len() + 2 * N,
        array_of::<u16, N>(u16s_at(w, a.len() as int, N as nat)) == x,
{
    lemma_piece(w, a, le16s(x@));
    lemma_le16s(x@);
    lemma_array_of(x);
}

/// Where `w` begins with `a` and the image of the array `x`, `x` is read
/// behind `a`.
pub proof fn lemma_read_i16s<const N: usize>(w: Seq<u8>, a: Seq<u8>, x: [i16; N])
    requires
        starts(w, a + le16s_signed(x@)),
    ensures
        starts(w, a),
        (a + le16s_signed(x@)).len() == a.len() + 2 * N,
        array_of::<i16, N>(i16s_at(w, a.len() as int, N as nat)) == x,
{
    lemma_piece(w, a, le16s_signed(x@));
    lemma_le16s_signed(x@);
    lemma_array_of(x);
}

/// Where `w` begins with `a` and the image of the array `x`, `x` is read
/// behind `a`.
pub proof fn lemma_read_u32s<const N: usize>(w: Seq<u8>, a: Seq<u8>, x: [u32; N])
    requires
        starts(w, a + le32s(x@)),
    ensures
        starts(w, a),
        (a + le32s(x@)).len() == a.len() + 4 * N,
        array_of::<u32, N>(u32s_at(w, a.len() as int, N as nat)) == x,
{
    lemma_piece(w, a, le32s(x@));
    lemma_le32s(x@);
    lemma_array_of(x);
}

/// Reads the byte at offset `o`.
pub fn get_u8(p: &[u8], o: usize) -> (r: u8)
    requires
        o < p@.len(),
    ensures
        r == p@[o as int],
{
    p[o]
}

/// Reads the signed byte at offset `o`.
pub fn get_i8(p: &[u8], o: usize) -> (r: i8)
    requires
        o < p@.len(),
    ensures
        r == p@[o as int] as i8,
{
    p[o] as i8
}

/// Reads the 16-bit value at offset `o`.
pub fn get_u16(p: &[u8], o: usize) -> (r: u16)
    requires
        o + 2 <= p@.len(),
    ensures
        r == u16_at(p@, o as int),
{
    read_u16(p, o)
}

/// Reads the signed 16-bit value at offset `o`.
pub fn get_i16(p: &[u8], o: usize) -> (r: i16)
    requires
        o + 2 <= p@.len(),
    ensures
        r == u16_at(p@, o as int) as i16,
{
    read_u16(p, o) as i16
}

/// Reads the 32-bit value at offset `o`.
pub fn get_u32(p: &[u8], o: usize) -> (r: u32)
    requires
        o + 4 <= p@.len(),
    ensures
        r == u32_at(p@, o as int),
{
    read_u32(p, o)
}

/// Reads the signed 32-bit value at offset `o`.
pub fn get_i32(p: &[u8], o: usize) -> (r: i32)
    requires
        o + 4 <= p@.len(),
    ensures
        r == u32_at(p@, o as int) as i32,
{
    read_u32(p, o) as i32
}

/// Reads the 64-bit value at offset `o`.
pub fn get_u64(p: &[u8], o: usize) -> (r: u64)
    requires
        o + 8 <= p@.len(),
    ensures
        r == u64_at(p@, o as int),
{
    read_u64(p, o)
}

/// Reads the signed 64-bit value at offset `o`.
pub fn get_i64(p: &[u8], o: usize) -> (r: i64)
    requires
        o + 8 <= p@.len(),
    ensures
        r == u64_at(p@, o as int) as i64,
{
    read_u64(p, o) as i64
}

/// Reads `N` bytes from offset `o`.
pub fn get_u8s<const N: usize>(p: &[u8], o: usize) -> (r: [u8; N])
    requires
        o + N <= p@.len(),
    ensures
        r == array_of::<u8, N>(u8s_at(p@, o as int, N as nat)),
{
    let mut r = [0u8; N];
    let len = p.len();
    let mut i: usize = 0;
    while i < N
        invariant
            i <= N,
            len == p@.len(),
            o + N <= p@.len(),
            forall|j: int| 0 <= j < i ==> r@[j] == p@[o + j],
        decreases N - i,
    {
        r[i] = p[o + i];
        i += 1;
    }
    proof {
        assert(r@ =~= u8s_at(p@, o as int, N as nat));
        lemma_array_of(r);
    }
    r
}

/// Reads `N` signed bytes from offset `o`.
pub fn get_i8s<const N: usize>(p: &[u8], o: usize) -> (r: [i8; N])
    requires
        o + N <= p@.len(),
    ensures
        r == array_of::<i8, N>(i8s_at(p@, o as int, N as nat)),
{
    let mut r = [0i8; N];
    let len = p.len();
    let mut i: usize = 0;
    while i < N
        invariant
            i <= N,
            len == p@.len(),
            o + N <= p@.len(),
            forall|j: int| 0 <= j < i ==> r@[j] == p@[o + j] as i8,
        decreases N - i,
    {
        r[i] = p[o + i] as i8;
        i += 1;
    }
    proof {
        assert(r@ =~= i8s_at(p@, o as int, N as nat));
        lemma_array_of(r);
    }
    r
}

/// Reads `N` 16-bit values from offset `o`.
pub fn get_u16s<const N: usize>(p: &[u8], o: usize) -> (r: [u16; N])
    requires
        o + 2 * N <= p@.len(),
    ensures
        r == array_of::<u16, N>(u16s_at(p@, o as int, N as nat)),
{
    let mut r = [0u16; N];
    let len = p.len();
    let mut i: usize = 0;
    while i < N
        invariant
            i <= N,
            len == p@.len(),
            o + 2 * N <= p@.len(),
            forall|j: int| 0 <= j < i ==> r@[j] == u16_at(p@, o + 2 * j),
        decreases N - i,
    {
        r[i] = read_u16(p, o + 2 * i);
        i += 1;
    }
    proof {
        let b = p@.subrange(o as int, o + 2 * N);
        assert forall|j: int| 0 <= j < N implies r@[j] == u16s_of(b)[j] by {
            assert(b.subrange(2 * j, 2 * j + 2) =~= p@.subrange(o + 2 * j, o + 2 * j + 2));
        }
        assert(r@ =~= u16s_at(p@, o as int, N as nat));
        lemma_array_of(r);
    }
    r
}

/// Reads `N` signed 16-bit values from offset `o`.
pub fn get_i16s<const N: usize>(p: &[u8], o: usize) -> (r: [i16; N])
    requires
        o + 2 * N <= p@.len(),
    ensures
        r == array_of::<i16, N>(i16s_at(p@, o as int, N as nat)),
{
    let mut r = [0i16; N];
    let len = p.len();
    let mut i: usize = 0;
    while i < N
        invariant
            i <= N,
            len == p@.len(),
            o + 2 * N <= p@.len(),
            forall|j: int| 0 <= j < i ==> r@[j] == u16_at(p@, o + 2 * j) as i16,
        decreases N - i,
    {
        r[i] = read_u16(p, o + 2 * i) as i16;
        i += 1;
    }
    proof {
        let b = p@.subrange(o as int, o + 2 * N);
        assert forall|j: int| 0 <= j < N implies r@[j] == i16s_of(b)[j] by {
            assert(b.subrange(2 * j, 2 * j + 2) =~= p@.subrange(o + 2 * j, o + 2 * j + 2));
        }
        assert(r@ =~= i16s_at(p@, o as int, N as nat));
        lemma_array_of(r);
    }
    r
}

/// Reads `N` 32-bit values from offset `o`.
pub fn get_u32s<const N: usize>(p: &[u8], o: usize) -> (r: [u32; N])
    requires
        o + 4 * N <= p@.len(),
    ensures
        r == array_of::<u32, N>(u32s_at(p@, o as int, N as nat)),
{
    let mut r = [0u32; N];
    let len = p.len();
    let mut i: usize = 0;
    while i < N
        invariant
            i <= N,
            len == p@.len(),
            o + 4 * N <= p@.len(),
            forall|j: int| 0 <= j < i ==> r@[j] == u32_at(p@, o + 4 * j),
        decreases N - i,
    {
        r[i] = read_u32(p, o + 4 * i);
        i += 1;
    }
    proof {
        let b = p@.subrange(o as int, o + 4 * N);
        assert forall|j: int| 0 <= j < N implies r@[j] == u32s_of(b)[j] by {
            assert(b.subrange(4 * j, 4 * j + 4) =~= p@.subrange(o + 4 * j, o + 4 * j + 4));
        }
        assert(r@ =~= u32s_at(p@, o as int, N as nat));
        lemma_array_of(r);
    }
    r
}

/// Appends a byte.
pub fn put_u8(out: &mut Vec<u8>, x: u8)
    ensures
        final(out)@ == old(out)@ + le8(x),
{
    out.push(x);
    assert(out@ =~= old(out)@ + le8(x));
}

/// Appends a signed byte.
pub fn put_i8(out: &mut Vec<u8>, x: i8)
    ensures
        final(out)@ == old(out)@ + le8(x as u8),
{
    out.push(x as u8);
    assert(out@ =~= old(out)@ + le8(x as u8));
}

/// Appends a 16-bit value.
pub fn put_u16(out: &mut Vec<u8>, x: u16)
    ensures
        final(out)@ == old(out)@ + le16(x),
{
    write_u16(out, x);
}

/// Appends a signed 16-bit value.
pub fn put_i16(out: &mut Vec<u8>, x: i16)
    ensures
        final(out)@ == old(out)@ + le16(x as u16),
{
    write_u16(out, x as u16);
}

/// Appends a 32-bit value.
pub fn put_u32(out: &mut Vec<u8>, x: u32)
    ensures
        final(out)@ == old(out)@ + le32(x),
{
    write_u32(out, x);
}

/// Appends a signed 32-bit value.
pub fn put_i32(out: &mut Vec<u8>, x: i32)
    ensures
        final(out)@ == old(out)@ + le32(x as u32),
{
    write_u32(out, x as u32);
}

/// Appends a 64-bit value.
pub fn put_u64(out: &mut Vec<u8>, x: u64)
    ensures
        final(out)@ == old(out)@ + le64(x),
{
    write_u64(out, x);
}

/// Appends a signed 64-bit value.
pub fn put_i64(out: &mut Vec<u8>, x: i64)
    ensures
        final(out)@ == old(out)@ + le64(x as u64),
{
    write_u64(out, x as u64);
}

/// Appends the bytes of an array.
pub fn put_u8s<const N: usize>(out: &mut Vec<u8>, a: &[u8; N])
    ensures
        final(out)@ == old(out)@ + a@,
{
    let mut i: usize = 0;
    while i < N
        invariant
            i <= N,
            out@ =~= old(out)@ + a@.subrange(0, i as int),
        decreases N - i,
    {
        out.push(a[i]);
        i += 1;
    }
    assert(a@.subrange(0, N as int) =~= a@);
}

/// Appends the signed bytes of an array.
pub fn put_i8s<const N: usize>(out: &mut Vec<u8>, a: &[i8; N])
    ensures
        final(out)@ == old(out)@ + le8s_signed(a@),
{
    let mut i: usize = 0;
    while i < N
        invariant
            i <= N,
            out@ =~= old(out)@ + le8s_signed(a@).subrange(0, i as int),
        decreases N - i,
    {
        out.push(a[i] as u8);
        i += 1;
    }
    assert(le8s_signed(a@).subrange(0, N as int) =~= le8s_signed(a@));
}

/// Appends the 16-bit values of an array.
pub fn put_u16s<const N: usize>(out: &mut Vec<u8>, a: &[u16; N])
    ensures
        final(out)@ == old(out)@ + le16s(a@),
{
    let mut i: usize = 0;
    while i < N
        invariant
            i <= N,
            out@ =~= old(out)@ + le16s(a@).subrange(0, 2 * i),
        decreases N - i,
    {
        write_u16(out, a[i]);
        i += 1;
    }
    assert(le16s(a@).subrange(0, 2 * N) =~= le16s(a@));
}

/// Appends the signed 16-bit values of an array.
pub fn put_i16s<const N: usize>(out: &mut Vec<u8>, a: &[i16; N])
    ensures
        final(out)@ == old(out)@ + le16s_signed(a@),
{
    let mut i: usize = 0;
    while i < N
        invariant
            i <= N,
            out@ =~= old(out)@ + le16s_signed(a@).subrange(0, 2 * i),
        decreases N - i,
    {
        write_u16(out, a[i] as u16);
        i += 1;
    }
    assert(le16s_signed(a@).subrange(0, 2 * N) =~= le16s_signed(a@));
}

/// Appends the 32-bit values of an array.
pub fn put_u32s<const N: usize>(out: &mut Vec<u8>, a: &[u32; N])
    ensures
        final(out)@ == old(out)@ + le32s(a@),
{
    let mut i: usize = 0;
    while i < N
        invariant
            i <= N,
            out@ =~= old(out)@ + le32s(a@).subrange(0, 4 * i),
        decreases N - i,
    {
        write_u32(out, a[i]);
        i += 1;
    }
    assert(le32s(a@).subrange(0, 4 * N) =~= le32s(a@));
}

} // verus!
