//! Little- and big-endian integer encodings and a fixed-capacity byte buffer.

use vstd::prelude::*;

verus! {

/// The two-byte little-endian encoding of `n`.
pub open spec fn le16(n: u16) -> Seq<u8> {
    seq![(n as int % 0x100) as u8, (n as int / 0x100 % 0x100) as u8]
}

/// The four-byte little-endian encoding of `n`.
pub open spec fn le32(n: u32) -> Seq<u8> {
    seq![
        (n as int % 0x100) as u8,
        (n as int / 0x100 % 0x100) as u8,
        (n as int / 0x10000 % 0x100) as u8,
        (n as int / 0x1000000 % 0x100) as u8,
    ]
}

/// The eight-byte little-endian encoding of `n`.
pub open spec fn le64(n: u64) -> Seq<u8> {
    seq![
        (n as int % 0x100) as u8,
        (n as int / 0x100 % 0x100) as u8,
        (n as int / 0x10000 % 0x100) as u8,
        (n as int / 0x1000000 % 0x100) as u8,
        (n as int / 0x100000000 % 0x100) as u8,
        (n as int / 0x10000000000 % 0x100) as u8,
        (n as int / 0x1000000000000 % 0x100) as u8,
        (n as int / 0x100000000000000 % 0x100) as u8,
    ]
}

/// The value of two little-endian bytes.
pub open spec fn u16_of_le(b0: u8, b1: u8) -> u16 {
    (b0 as int + b1 as int * 0x100) as u16
}

/// The value of four little-endian bytes.
pub open spec fn u32_of_le(b0: u8, b1: u8, b2: u8, b3: u8) -> u32 {
    (b0 as int + b1 as int * 0x100 + b2 as int * 0x10000 + b3 as int * 0x1000000) as u32
}

/// The value of eight little-endian bytes.
pub open spec fn u64_of_le(b0: u8, b1: u8, b2: u8, b3: u8, b4: u8, b5: u8, b6: u8, b7: u8) -> u64 {
    (b0 as int + b1 as int * 0x100 + b2 as int * 0x10000 + b3 as int * 0x1000000
        + b4 as int * 0x100000000 + b5 as int * 0x10000000000 + b6 as int * 0x1000000000000
        + b7 as int * 0x100000000000000) as u64
}

/// Decoding the two little-endian bytes of `n` gives back `n`.
pub proof fn lemma_le16_roundtrip(n: u16)
    ensures
        u16_of_le(le16(n)[0], le16(n)[1]) == n,
{
    assert(u16_of_le((n as int % 0x100) as u8, (n as int / 0x100 % 0x100) as u8) == n)
        by (bit_vector);
}

/// Decoding the four little-endian bytes of `n` gives back `n`.
pub proof fn lemma_le32_roundtrip(n: u32)
    ensures
        u32_of_le(le32(n)[0], le32(n)[1], le32(n)[2], le32(n)[3]) == n,
{
    assert(u32_of_le(
        (n as int % 0x100) as u8,
        (n as int / 0x100 % 0x100) as u8,
        (n as int / 0x10000 % 0x100) as u8,
        (n as int / 0x1000000 % 0x100) as u8,
    ) == n) by (bit_vector);
}

/// Decoding the eight little-endian bytes of `n` gives back `n`.
pub proof fn lemma_le64_roundtrip(n: u64)
    ensures
        u64_of_le(
            le64(n)[0],
            le64(n)[1],
            le64(n)[2],
            le64(n)[3],
            le64(n)[4],
            le64(n)[5],
            le64(n)[6],
            le64(n)[7],
        ) == n,
{
    assert(u64_of_le(
        (n as int % 0x100) as u8,
        (n as int / 0x100 % 0x100) as u8,
        (n as int / 0x10000 % 0x100) as u8,
        (n as int / 0x1000000 % 0x100) as u8,
        (n as int / 0x100000000 % 0x100) as u8,
        (n as int / 0x10000000000 % 0x100) as u8,
        (n as int / 0x1000000000000 % 0x100) as u8,
        (n as int / 0x100000000000000 % 0x100) as u8,
    ) == n) by (bit_vector);
}

/// Appends the two-byte little-endian encoding of `n` to `buf`.
pub fn push_u16_le(buf: &mut Vec<u8>, n: u16)
    ensures
        final(buf)@ == old(buf)@ + le16(n),
{
    buf.push((n % 0x100) as u8);
    buf.push((n / 0x100 % 0x100) as u8);
    assert(buf@ =~= old(buf)@ + le16(n));
}

/// Appends the four-byte little-endian encoding of `n` to `buf`.
pub fn push_u32_le(buf: &mut Vec<u8>, n: u32)
    ensures
        final(buf)@ == old(buf)@ + le32(n),
{
    buf.push((n % 0x100) as u8);
    buf.push((n / 0x100 % 0x100) as u8);
    buf.push((n / 0x10000 % 0x100) as u8);
    buf.push((n / 0x1000000 % 0x100) as u8);
    assert(buf@ =~= old(buf)@ + le32(n));
}

/// Appends the eight-byte little-endian encoding of `n` to `buf`.
pub fn push_u64_le(buf: &mut Vec<u8>, n: u64)
    ensures
        final(buf)@ == old(buf)@ + le64(n),
{
    buf.push((n % 0x100) as u8);
    buf.push((n / 0x100 % 0x100) as u8);
    buf.push((n / 0x10000 % 0x100) as u8);
    buf.push((n / 0x1000000 % 0x100) as u8);
    buf.push((n / 0x100000000 % 0x100) as u8);
    buf.push((n / 0x10000000000 % 0x100) as u8);
    buf.push((n / 0x1000000000000 % 0x100) as u8);
    buf.push((n / 0x100000000000000 % 0x100) as u8);
    assert(buf@ =~= old(buf)@ + le64(n));
}

/// A byte buffer holding at most `MAX` bytes.
///
/// Instruction encodings and their parts have small static maxima, so a
/// buffer carries its capacity in its type.
#[derive(Debug, Clone, PartialEq, Eq)]
pub struct BytesAtMost<const MAX: usize> {
    bytes: Vec<u8>,
}

impl<const MAX: usize> View for BytesAtMost<MAX> {
    type V = Seq<u8>;

    closed spec fn view(&self) -> Seq<u8> {
        self.bytes@
    }
}

impl<const MAX: usize> BytesAtMost<MAX> {
    /// The buffer never holds more than `MAX` bytes.
    pub open spec fn wf(&self) -> bool {
        self@.len() <= MAX
    }

    /// A buffer of `len` zero bytes.
    pub fn new(len: usize) -> (r: Self)
        requires
            len <= MAX,
        ensures
            r.wf(),
            r@ == Seq::new(len as nat, |i: int| 0u8),
    {
        Self::with_len(len)
    }

    /// A buffer of `len` zero bytes.
    pub fn with_len(len: usize) -> (r: Self)
        requires
            len <= MAX,
        ensures
            r.wf(),
            r@ == Seq::new(len as nat, |i: int| 0u8),
    {
        let mut bytes: Vec<u8> = Vec::new();
        let mut i: usize = 0;
        while i < len
            invariant
                i <= len,
                bytes@ == Seq::new(i as nat, |j: int| 0u8),
            decreases len - i,
        {
            bytes.push(0);
            assert(bytes@ =~= Seq::new((i + 1) as nat, |j: int| 0u8));
            i += 1;
        }
        BytesAtMost { bytes }
    }

    /// A buffer holding a copy of the bytes of `s`.
    pub fn from_slice(s: &[u8]) -> (r: Self)
        requires
            s@.len() <= MAX,
        ensures
            r.wf(),
            r@ == s@,
    {
        BytesAtMost { bytes: vstd::slice::slice_to_vec(s) }
    }

    /// A one-byte buffer.
    pub fn from_u8(n: u8) -> (r: Self)
        requires
            MAX >= 1,
        ensures
            r.wf(),
            r@ == seq![n],
    {
        let mut bytes: Vec<u8> = Vec::new();
        bytes.push(n);
        assert(bytes@ =~= seq![n]);
        BytesAtMost { bytes }
    }

    /// A two-byte buffer holding `n` in little-endian order.
    pub fn from_u16(n: u16) -> (r: Self)
        requires
            MAX >= 2,
        ensures
            r.wf(),
            r@ == le16(n),
    {
        let mut bytes: Vec<u8> = Vec::new();
        push_u16_le(&mut bytes, n);
        BytesAtMost { bytes }
    }

    /// A four-byte buffer holding `n` in little-endian order.
    pub fn from_u32(n: u32) -> (r: Self)
        requires
            MAX >= 4,
        ensures
            r.wf(),
            r@ == le32(n),
    {
        let mut bytes: Vec<u8> = Vec::new();
        push_u32_le(&mut bytes, n);
        BytesAtMost { bytes }
    }

    /// An eight-byte buffer holding `n` in little-endian order.
    pub fn from_u64(n: u64) -> (r: Self)
        requires
            MAX >= 8,
        ensures
            r.wf(),
            r@ == le64(n),
    {
        let mut bytes: Vec<u8> = Vec::new();
        push_u64_le(&mut bytes, n);
        BytesAtMost { bytes }
    }

    /// The number of bytes held.
    pub fn len(&self) -> (r: usize)
        ensures
            r == self@.len(),
    {
        self.bytes.len()
    }

    /// Whether the buffer holds no bytes.
    pub fn is_empty(&self) -> (r: bool)
        ensures
            r == (self@.len() == 0),
    {
        self.bytes.len() == 0
    }

    /// The bytes held, as a slice.
    pub fn bytes(&self) -> (r: &[u8])
        ensures
            r@ == self@,
    {
        self.bytes.as_slice()
    }

    /// Appends the bytes held to `buf`.
    pub fn append_to(&self, buf: &mut Vec<u8>)
        ensures
            final(buf)@ == old(buf)@ + self@,
    {
        let mut i: usize = 0;
        while i < self.bytes.len()
            invariant
                i <= self.bytes@.len(),
                buf@ == old(buf)@ + self.bytes@.subrange(0, i as int),
            decreases self.bytes@.len() - i,
        {
            buf.push(self.bytes[i]);
            assert(buf@ =~= old(buf)@ + self.bytes@.subrange(0, i + 1));
            i += 1;
        }
        assert(buf@ =~= old(buf)@ + self@);
    }
}

} // verus!
