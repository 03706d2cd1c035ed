//! Byte order, multi-byte field access, and fixed-size ASCII strings.
//!
//! The writer always emits little-endian data, the byte order of every
//! supported host; the readers take the byte order as a parameter.

use crate::bytes::{le32, u16_of_le, u32_of_le, u64_of_le};
use vstd::prelude::*;
use vstd::string::StringSliceAdditionalSpecFns;

verus! {

/// A byte order.
#[derive(Debug, Clone, Copy, PartialEq, Eq, Structural)]
pub enum Endian {
    Little,
    Big,
}

impl Endian {
    /// The byte order of the supported hosts.
    pub const NATIVE: Endian = Endian::Little;

    /// The reverse of the hosts' byte order.
    pub const REVERSE: Endian = Endian::Big;
}

/// The value of the two bytes of `s` at `pos` in byte order `e`.
pub open spec fn u16_at(s: Seq<u8>, pos: int, e: Endian) -> u16 {
    match e {
        Endian::Little => u16_of_le(s[pos], s[pos + 1]),
        Endian::Big => u16_of_le(s[pos + 1], s[pos]),
    }
}

/// The value of the four bytes of `s` at `pos` in byte order `e`.
pub open spec fn u32_at(s: Seq<u8>, pos: int, e: Endian) -> u32 {
    match e {
        Endian::Little => u32_of_le(s[pos], s[pos + 1], s[pos + 2], s[pos + 3]),
        Endian::Big => u32_of_le(s[pos + 3], s[pos + 2], s[pos + 1], s[pos]),
    }
}

/// The value of the eight bytes of `s` at `pos` in byte order `e`.
pub open spec fn u64_at(s: Seq<u8>, pos: int, e: Endian) -> u64 {
    match e {
        Endian::Little => u64_of_le(
            s[pos],
            s[pos + 1],
            s[pos + 2],
            s[pos + 3],
            s[pos + 4],
            s[pos + 5],
            s[pos + 6],
            s[pos + 7],
        ),
        Endian::Big => u64_of_le(
            s[pos + 7],
            s[pos + 6],
            s[pos + 5],
            s[pos + 4],
            s[pos + 3],
            s[pos + 2],
            s[pos + 1],
            s[pos],
        ),
    }
}

/// The unsigned 32-bit value with the same bits as `n`.
pub open spec fn u32_bits_of_i32(n: i32) -> u32 {
    if n >= 0 {
        n as u32
    } else {
        (n as int + 0x100000000) as u32
    }
}

/// The signed 32-bit value with the same bits as `n`.
pub open spec fn i32_of_u32_bits(n: u32) -> i32 {
    if n < 0x80000000 {
        n as i32
    } else {
        (n as int - 0x100000000) as i32
    }
}

/// The two bit reinterpretations invert each other.
pub proof fn lemma_i32_bits_roundtrip(n: i32)
    ensures
        i32_of_u32_bits(u32_bits_of_i32(n)) == n,
{
}

/// The four-byte little-endian encoding of the bits of `n`.
pub open spec fn le32_i(n: i32) -> Seq<u8> {
    le32(u32_bits_of_i32(n))
}

/// The value of the four bytes of `s` at `pos`, as a signed integer.
pub open spec fn i32_at(s: Seq<u8>, pos: int, e: Endian) -> i32 {
    i32_of_u32_bits(u32_at(s, pos, e))
}

/// The unsigned 32-bit value with the same bits as `n`.
pub fn i32_to_bits(n: i32) -> (r: u32)
    ensures
        r == u32_bits_of_i32(n),
{
    if n >= 0 {
        n as u32
    } else {
        ((n as i64) + 0x100000000i64) as u32
    }
}

/// The signed 32-bit value with the same bits as `n`.
pub fn bits_to_i32(n: u32) -> (r: i32)
    ensures
        r == i32_of_u32_bits(n),
{
    if n < 0x80000000 {
        n as i32
    } else {
        ((n as i64) - 0x100000000i64) as i32
    }
}

/// Appends the four-byte little-endian encoding of the bits of `n`.
pub fn push_i32_le(buf: &mut Vec<u8>, n: i32)
    ensures
        final(buf)@ == old(buf)@ + le32_i(n),
{
    crate::bytes::push_u32_le(buf, i32_to_bits(n));
}

/// Reads one byte of `s` at `pos`.
pub fn read_u8_at(s: &Vec<u8>, pos: usize) -> (r: u8)
    requires
        pos < s@.len(),
    ensures
        r == s@[pos as int],
{
    s[pos]
}

/// Reads the two bytes of `s` at `pos` in byte order `e`.
pub fn read_u16_in(s: &Vec<u8>, pos: usize, e: Endian) -> (r: u16)
    requires
        pos + 2 <= s@.len(),
    ensures
        r == u16_at(s@, pos as int, e),
{
    let slen: usize = s.len();
    let (b0, b1) = match e {
        Endian::Little => (s[pos], s[pos + 1]),
        Endian::Big => (s[pos + 1], s[pos]),
    };
    b0 as u16 + b1 as u16 * 0x100
}

/// Reads the four bytes of `s` at `pos` in byte order `e`.
pub fn read_u32_in(s: &Vec<u8>, pos: usize, e: Endian) -> (r: u32)
    requires
        pos + 4 <= s@.len(),
    ensures
        r == u32_at(s@, pos as int, e),
{
    let slen: usize = s.len();
    let (b0, b1, b2, b3) = match e {
        Endian::Little => (s[pos], s[pos + 1], s[pos + 2], s[pos + 3]),
        Endian::Big => (s[pos + 3], s[pos + 2], s[pos + 1], s[pos]),
    };
    b0 as u32 + b1 as u32 * 0x100 + b2 as u32 * 0x10000 + b3 as u32 * 0x1000000
}

/// Reads the four bytes of `s` at `pos` in byte order `e`, as signed.
pub fn read_i32_in(s: &Vec<u8>, pos: usize, e: Endian) -> (r: i32)
    requires
        pos + 4 <= s@.len(),
    ensures
        r == i32_at(s@, pos as int, e),
{
    bits_to_i32(read_u32_in(s, pos, e))
}

/// Reads the eight bytes of `s` at `pos` in byte order `e`.
pub fn read_u64_in(s: &Vec<u8>, pos: usize, e: Endian) -> (r: u64)
    requires
        pos + 8 <= s@.len(),
    ensures
        r == u64_at(s@, pos as int, e),
{
    let slen: usize = s.len();
    let (b0, b1, b2, b3, b4, b5, b6, b7) = match e {
        Endian::Little => (
            s[pos],
            s[pos + 1],
            s[pos + 2],
            s[pos + 3],
            s[pos + 4],
            s[pos + 5],
            s[pos + 6],
            s[pos + 7],
        ),
        Endian::Big => (
            s[pos + 7],
            s[pos + 6],
            s[pos + 5],
            s[pos + 4],
            s[pos + 3],
            s[pos + 2],
            s[pos + 1],
            s[pos],
        ),
    };
    b0 as u64 + b1 as u64 * 0x100 + b2 as u64 * 0x10000 + b3 as u64 * 0x1000000 + b4 as u64
        * 0x100000000 + b5 as u64 * 0x10000000000 + b6 as u64 * 0x1000000000000 + b7 as u64
        * 0x100000000000000
}

/// A two-byte little-endian field reads back as the value written.
pub proof fn lemma_u16_field(s: Seq<u8>, pos: int, n: u16)
    requires
        0 <= pos,
        pos + 2 <= s.len(),
        s.subrange(pos, pos + 2) == crate::bytes::le16(n),
    ensures
        u16_at(s, pos, Endian::Little) == n,
{
    crate::bytes::lemma_le16_roundtrip(n);
    assert(s[pos] == crate::bytes::le16(n)[0]);
    assert(s[pos + 1] == crate::bytes::le16(n)[1]);
}

/// A four-byte little-endian field reads back as the value written.
pub proof fn lemma_u32_field(s: Seq<u8>, pos: int, n: u32)
    requires
        0 <= pos,
        pos + 4 <= s.len(),
        s.subrange(pos, pos + 4) == le32(n),
    ensures
        u32_at(s, pos, Endian::Little) == n,
{
    crate::bytes::lemma_le32_roundtrip(n);
    assert(s[pos] == le32(n)[0]);
    assert(s[pos + 1] == le32(n)[1]);
    assert(s[pos + 2] == le32(n)[2]);
    assert(s[pos + 3] == le32(n)[3]);
}

/// A four-byte little-endian signed field reads back as the value written.
pub proof fn lemma_i32_field(s: Seq<u8>, pos: int, n: i32)
    requires
        0 <= pos,
        pos + 4 <= s.len(),
        s.subrange(pos, pos + 4) == le32_i(n),
    ensures
        i32_at(s, pos, Endian::Little) == n,
{
    lemma_u32_field(s, pos, u32_bits_of_i32(n));
    lemma_i32_bits_roundtrip(n);
}

/// An eight-byte little-endian field reads back as the value written.
pub proof fn lemma_u64_field(s: Seq<u8>, pos: int, n: u64)
    requires
        0 <= pos,
        pos + 8 <= s.len(),
        s.subrange(pos, pos + 8) == crate::bytes::le64(n),
    ensures
        u64_at(s, pos, Endian::Little) == n,
{
    crate::bytes::lemma_le64_roundtrip(n);
    assert forall|i: int| 0 <= i < 8 implies s[pos + i] == crate::bytes::le64(n)[i] by {
        assert(s.subrange(pos, pos + 8)[i] == s[pos + i]);
    }
}

/// A fixed-size string field reads back as the characters written, when
/// they are ASCII, none is NUL, and they fit the field.
pub proof fn lemma_str_field(s: Seq<u8>, pos: int, cs: Seq<char>, size: int)
    requires
        0 <= pos,
        0 <= cs.len() <= size,
        pos + size <= s.len(),
        s.subrange(pos, pos + size) == fixed_str_bytes(cs, size),
        forall|i: int| 0 <= i < cs.len() ==> 0 < (cs[i] as int) && (cs[i] as int) < 128,
    ensures
        chars_of_bytes(take_until_nul(s.subrange(pos, pos + size))) == cs,
        forall|i: int| pos <= i < pos + size ==> s[i] < 128,
{
    let pad = Seq::new((size - cs.len()) as nat, |i: int| 0u8);
    assert(s.subrange(pos, pos + size) =~= bytes_of_chars(cs) + pad);
    lemma_take_until_nul_of_padded(cs, pad);
    assert(forall|i: int|
        0 <= i < cs.len() ==> (#[trigger] cs[i] as nat) < 128);
    lemma_chars_bytes_roundtrip(cs);
    assert forall|i: int| pos <= i < pos + size implies s[i] < 128 by {
        assert(s[i] == (bytes_of_chars(cs) + pad)[i - pos]);
    }
}

/// The characters standing for the given ASCII bytes.
pub open spec fn chars_of_bytes(bs: Seq<u8>) -> Seq<char> {
    Seq::new(bs.len(), |i: int| bs[i] as char)
}

/// The bytes of the given ASCII characters.
pub open spec fn bytes_of_chars(cs: Seq<char>) -> Seq<u8> {
    Seq::new(cs.len(), |i: int| cs[i] as u8)
}

/// All characters are ASCII.
pub open spec fn ascii_chars(cs: Seq<char>) -> bool {
    vstd::utf8::is_ascii_chars(cs)
}

/// The prefix of `bs` up to but not including its first NUL byte; all of
/// `bs` if it has none.
pub open spec fn take_until_nul(bs: Seq<u8>) -> Seq<u8>
    decreases bs.len(),
{
    if bs.len() == 0 {
        seq![]
    } else if bs[0] == 0 {
        seq![]
    } else {
        seq![bs[0]] + take_until_nul(bs.drop_first())
    }
}

/// Taking until NUL from ASCII characters followed by padding gives the
/// characters back, when none of them is NUL.
pub proof fn lemma_take_until_nul_of_padded(cs: Seq<char>, pad: Seq<u8>)
    requires
        forall|i: int| 0 <= i < cs.len() ==> 0 < (cs[i] as int) && (cs[i] as int) < 128,
        forall|i: int| 0 <= i < pad.len() ==> pad[i] == 0,
    ensures
        take_until_nul(bytes_of_chars(cs) + pad) == bytes_of_chars(cs),
    decreases cs.len(),
{
    let bs = bytes_of_chars(cs) + pad;
    if cs.len() == 0 {
        if pad.len() == 0 {
            assert(take_until_nul(bs) =~= bytes_of_chars(cs));
        } else {
            assert(bs[0] == 0);
            assert(take_until_nul(bs) =~= bytes_of_chars(cs));
        }
    } else {
        assert(bs[0] == cs[0] as u8);
        assert(bs[0] != 0);
        let tail = cs.drop_first();
        lemma_take_until_nul_of_padded(tail, pad);
        assert(bs.drop_first() =~= bytes_of_chars(tail) + pad);
        assert(take_until_nul(bs) =~= seq![bs[0]] + take_until_nul(bs.drop_first()));
        assert(take_until_nul(bs) =~= bytes_of_chars(cs));
    }
}

/// For ASCII characters, bytes and characters convert back and forth.
pub proof fn lemma_chars_bytes_roundtrip(cs: Seq<char>)
    requires
        ascii_chars(cs),
    ensures
        chars_of_bytes(bytes_of_chars(cs)) == cs,
        forall|i: int| 0 <= i < bytes_of_chars(cs).len() ==> bytes_of_chars(cs)[i] < 128,
{
    assert forall|i: int| 0 <= i < cs.len() implies #[trigger] chars_of_bytes(bytes_of_chars(cs))[i]
        == cs[i] by {
        assert((cs[i] as int) < 128);
    }
    assert(chars_of_bytes(bytes_of_chars(cs)) =~= cs);
}

/// Relies on `String::from_utf8`: bytes below 128 are one-byte UTF-8
/// sequences, so they decode to exactly those characters.
#[verifier::external_body]
fn string_from_ascii(v: Vec<u8>) -> (r: String)
    requires
        forall|i: int| 0 <= i < v@.len() ==> v@[i] < 128,
    ensures
        r@ == chars_of_bytes(v@),
{
    String::from_utf8(v).unwrap()
}

/// A `String` holding the given ASCII bytes as its characters.
pub fn ascii_bytes_to_string(v: Vec<u8>) -> (r: String)
    requires
        forall|i: int| 0 <= i < v@.len() ==> v@[i] < 128,
    ensures
        r@ == chars_of_bytes(v@),
        r@.len() == v@.len(),
        ascii_chars(r@),
{
    let ghost bs = v@;
    let r = string_from_ascii(v);
    proof {
        assert forall|i: int| 0 <= i < r@.len() implies (#[trigger] r@[i] as nat) < 128 by {
            assert(r@[i] == bs[i] as char);
        }
    }
    r
}

/// Whether the bytes `b` are exactly the bytes of the ASCII string `s`.
pub fn str_eq_bytes(s: &str, b: &[u8]) -> (r: bool)
    requires
        s.is_ascii(),
    ensures
        r == (b@ == bytes_of_chars(s@)),
{
    proof {
        vstd::string::is_ascii_spec_bytes(s);
    }
    let sb = s.as_bytes();
    assert(sb@ =~= bytes_of_chars(s@));
    if sb.len() != b.len() {
        assert(b@ != bytes_of_chars(s@));
        return false;
    }
    let n: usize = sb.len();
    let mut i: usize = 0;
    while i < n
        invariant
            n == sb@.len() == b@.len(),
            sb@ == bytes_of_chars(s@),
            i <= n,
            forall|k: int| 0 <= k < i ==> sb@[k] == b@[k],
        decreases n - i,
    {
        if sb[i] != b[i] {
            assert(b@ != sb@);
            return false;
        }
        i += 1;
    }
    assert(b@ =~= sb@);
    true
}

/// Whether two strings hold the same characters, decided by comparing
/// their UTF-8 bytes.
pub fn str_eq_chars(a: &str, b: &str) -> (r: bool)
    ensures
        r == (a@ == b@),
{
    let ab = a.as_bytes();
    let bb = b.as_bytes();
    proof {
        vstd::utf8::encode_utf8_decode_utf8(a@);
        vstd::utf8::encode_utf8_decode_utf8(b@);
    }
    if ab.len() != bb.len() {
        assert(ab@ != bb@);
        return false;
    }
    let n: usize = ab.len();
    let mut i: usize = 0;
    while i < n
        invariant
            n == ab@.len() == bb@.len(),
            ab@ == a.spec_bytes(),
            bb@ == b.spec_bytes(),
            a@ == vstd::utf8::decode_utf8(a.spec_bytes()),
            b@ == vstd::utf8::decode_utf8(b.spec_bytes()),
            i <= n,
            forall|k: int| 0 <= k < i ==> ab@[k] == bb@[k],
        decreases n - i,
    {
        if ab[i] != bb[i] {
            assert(ab@ != bb@);
            return false;
        }
        i += 1;
    }
    assert(ab@ =~= bb@);
    true
}

/// For bytes below 128, characters and bytes convert back and forth.
pub proof fn lemma_bytes_chars_roundtrip(bs: Seq<u8>)
    requires
        forall|i: int| 0 <= i < bs.len() ==> (#[trigger] bs[i]) < 128,
    ensures
        bytes_of_chars(chars_of_bytes(bs)) == bs,
        ascii_chars(chars_of_bytes(bs)),
{
    assert forall|i: int| 0 <= i < bs.len() implies #[trigger] bytes_of_chars(chars_of_bytes(bs))[i]
        == bs[i] by {
        assert(chars_of_bytes(bs)[i] == bs[i] as char);
    }
    assert(bytes_of_chars(chars_of_bytes(bs)) =~= bs);
    assert forall|i: int| 0 <= i < chars_of_bytes(bs).len() implies (
    #[trigger] chars_of_bytes(bs)[i] as nat) < 128 by {
        assert(chars_of_bytes(bs)[i] == bs[i] as char);
    }
}

/// The 16 bytes of a fixed-size string field: the characters' bytes, then
/// NUL padding up to `size`.
pub open spec fn fixed_str_bytes(cs: Seq<char>, size: int) -> Seq<u8> {
    bytes_of_chars(cs) + Seq::new((size - cs.len()) as nat, |i: int| 0u8)
}

/// Appends `s` padded with NUL bytes to exactly `size` bytes.
pub fn push_fixed_size_string(buf: &mut Vec<u8>, s: &str, size: usize)
    requires
        s.is_ascii(),
        s@.len() <= size,
    ensures
        final(buf)@ == old(buf)@ + fixed_str_bytes(s@, size as int),
        final(buf)@.len() == old(buf)@.len() + size,
{
    proof {
        vstd::string::is_ascii_spec_bytes(s);
    }
    let bytes = s.as_bytes();
    assert(bytes@ =~= bytes_of_chars(s@));
    buf.extend_from_slice(bytes);
    let mut i: usize = bytes.len();
    while i < size
        invariant
            s@.len() <= i <= size,
            buf@ == old(buf)@ + bytes_of_chars(s@) + Seq::new((i - s@.len()) as nat, |j: int| 0u8),
        decreases size - i,
    {
        buf.push(0);
        assert(buf@ =~= old(buf)@ + bytes_of_chars(s@) + Seq::new(
            (i + 1 - s@.len()) as nat,
            |j: int| 0u8,
        ));
        i += 1;
    }
    assert(buf@ =~= old(buf)@ + fixed_str_bytes(s@, size as int));
}

/// Reads a fixed-size string field of `size` bytes at `pos`: the characters
/// before the first NUL byte.
pub fn read_fixed_size_string(s: &Vec<u8>, pos: usize, size: usize) -> (r: String)
    requires
        pos + size <= s@.len(),
        forall|i: int| pos <= i < pos + size ==> s@[i] < 128,
    ensures
        r@ == chars_of_bytes(take_until_nul(s@.subrange(pos as int, pos + size))),
        ascii_chars(r@),
{
    let slen: usize = s.len();
    let ghost field = s@.subrange(pos as int, pos + size);
    let mut v: Vec<u8> = Vec::new();
    let mut i: usize = 0;
    while i < size && s[pos + i] != 0
        invariant
            pos + size <= s@.len() <= usize::MAX,
            forall|k: int| pos <= k < pos + size ==> s@[k] < 128,
            i <= size,
            field == s@.subrange(pos as int, pos + size),
            v@ == field.subrange(0, i as int),
            forall|k: int| 0 <= k < i ==> field[k] != 0,
        decreases size - i,
    {
        v.push(s[pos + i]);
        assert(v@ =~= field.subrange(0, i + 1));
        i += 1;
    }
    proof {
        lemma_take_until_nul_of_prefix(field, i as int);
        assert(v@ =~= take_until_nul(field));
    }
    ascii_bytes_to_string(v)
}

/// If the first `k` bytes of `bs` are nonzero and either `k` is the whole
/// of `bs` or `bs[k]` is zero, then taking until NUL gives those `k` bytes.
pub proof fn lemma_take_until_nul_of_prefix(bs: Seq<u8>, k: int)
    requires
        0 <= k <= bs.len(),
        forall|i: int| 0 <= i < k ==> bs[i] != 0,
        k < bs.len() ==> bs[k] == 0,
    ensures
        take_until_nul(bs) == bs.subrange(0, k),
    decreases bs.len(),
{
    if k == 0 {
        if bs.len() == 0 {
            assert(take_until_nul(bs) =~= bs.subrange(0, 0));
        } else {
            assert(bs[0] == 0);
            assert(take_until_nul(bs) =~= bs.subrange(0, 0));
        }
    } else {
        assert(bs[0] != 0);
        let tail = bs.drop_first();
        lemma_take_until_nul_of_prefix(tail, k - 1);
        assert(take_until_nul(bs) =~= seq![bs[0]] + take_until_nul(tail));
        assert(seq![bs[0]] + tail.subrange(0, k - 1) =~= bs.subrange(0, k));
    }
}

} // verus!
