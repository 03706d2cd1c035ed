//! The string table: a leading NUL, then each symbol name followed by NUL.

use crate::endian::{ascii_chars, bytes_of_chars, chars_of_bytes, take_until_nul};
use vstd::prelude::*;

verus! {

/// The string the table holds at byte offset `idx`: the characters from
/// `idx` up to the next NUL.
pub open spec fn str_at(data: Seq<u8>, idx: int) -> Seq<char> {
    chars_of_bytes(take_until_nul(data.subrange(idx, data.len() as int)))
}

/// `idx` is the first byte of one of the table's strings: it follows a NUL.
pub open spec fn is_str_start(data: Seq<u8>, idx: int) -> bool {
    1 <= idx <= data.len() && data[idx - 1] == 0
}

/// Some string of the table reads `name`.
pub open spec fn contains_name(data: Seq<u8>, name: Seq<char>) -> bool {
    exists|i: int| is_str_start(data, i) && str_at(data, i) == name
}

/// The Mach-O string table.
pub struct StringTable {
    data: Vec<u8>,
}

impl View for StringTable {
    type V = Seq<u8>;

    closed spec fn view(&self) -> Seq<u8> {
        self.data@
    }
}

impl StringTable {
    /// The table starts with NUL, ends with NUL, and holds ASCII bytes.
    pub open spec fn wf(&self) -> bool {
        &&& self@.len() >= 1
        &&& self@[0] == 0
        &&& self@[self@.len() - 1] == 0
        &&& forall|i: int| 0 <= i < self@.len() ==> (#[trigger] self@[i]) < 128
    }

    /// A table holding only the leading NUL byte.
    pub fn with_null() -> (r: StringTable)
        ensures
            r@ == seq![0u8],
            r.wf(),
    {
        let mut data: Vec<u8> = Vec::new();
        data.push(0);
        let r = StringTable { data };
        assert(r@ =~= seq![0u8]);
        r
    }

    /// A table from its raw bytes.
    pub fn from_vec(data: Vec<u8>) -> (r: StringTable)
        requires
            data@.len() >= 1,
            data@[0] == 0,
            data@[data@.len() - 1] == 0,
            forall|i: int| 0 <= i < data@.len() ==> (#[trigger] data@[i]) < 128,
        ensures
            r@ == data@,
            r.wf(),
    {
        StringTable { data }
    }

    /// Appends the name's bytes followed by a NUL byte.
    pub fn push_with_null(&mut self, s: &str)
        requires
            s.is_ascii(),
        ensures
            final(self)@ == old(self)@ + bytes_of_chars(s@) + seq![0u8],
            old(self).wf() ==> final(self).wf(),
    {
        proof {
            vstd::string::is_ascii_spec_bytes(s);
        }
        let bytes = s.as_bytes();
        assert(bytes@ =~= bytes_of_chars(s@));
        self.data.extend_from_slice(bytes);
        self.data.push(0);
        proof {
            assert(self.data@ =~= old(self)@ + bytes_of_chars(s@) + seq![0u8]);
            if old(self).wf() {
                assert forall|i: int| 0 <= i < self@.len() implies (#[trigger] self@[i]) < 128 by {
                    if i < old(self)@.len() {
                    } else if i < old(self)@.len() + s@.len() {
                        assert(self@[i] == bytes_of_chars(s@)[i - old(self)@.len()]);
                        assert((s@[i - old(self)@.len()] as nat) < 128);
                    } else {
                    }
                }
            }
        }
    }

    /// The number of bytes in the table.
    pub fn len(&self) -> (r: usize)
        ensures
            r == self@.len(),
    {
        self.data.len()
    }

    /// The table's raw bytes.
    pub fn bytes(&self) -> (r: &[u8])
        ensures
            r@ == self@,
    {
        self.data.as_slice()
    }

    /// Appends the table's raw bytes to `buf`.
    pub fn append_to(&self, buf: &mut Vec<u8>)
        ensures
            final(buf)@ == old(buf)@ + self@,
    {
        buf.extend_from_slice(self.data.as_slice());
    }

    /// The string starting at byte offset `idx`: the characters up to the
    /// next NUL.
    pub fn get(&self, idx: usize) -> (r: String)
        requires
            self.wf(),
            idx < self@.len(),
        ensures
            r@ == str_at(self@, idx as int),
            ascii_chars(r@),
    {
        let len: usize = self.data.len();
        let ghost field = self@.subrange(idx as int, self@.len() as int);
        let mut v: Vec<u8> = Vec::new();
        let mut i: usize = idx;
        while i < len && self.data[i] != 0
            invariant
                self.wf(),
                idx <= i <= len,
                len == self@.len(),
                field == self@.subrange(idx as int, self@.len() as int),
                v@ == field.subrange(0, i - idx),
                forall|k: int| 0 <= k < i - idx ==> field[k] != 0,
            decreases len - i,
        {
            v.push(self.data[i]);
            assert(v@ =~= field.subrange(0, i + 1 - idx));
            i += 1;
        }
        proof {
            crate::endian::lemma_take_until_nul_of_prefix(field, i - idx);
            assert(v@ =~= take_until_nul(field));
            assert(forall|k: int| 0 <= k < v@.len() ==> (#[trigger] v@[k]) < 128);
        }
        crate::endian::ascii_bytes_to_string(v)
    }

    /// The byte offset of the first string of the table reading `name`.
    pub fn strx_of(&self, name: &str) -> (r: usize)
        requires
            self.wf(),
            name.is_ascii(),
            contains_name(self@, name@),
        ensures
            is_str_start(self@, r as int),
            str_at(self@, r as int) == name@,
            forall|j: int|
                is_str_start(self@, j) && j < r ==> str_at(self@, j) != name@,
    {
        let len: usize = self.data.len();
        let mut idx: usize = 1;
        loop
            invariant
                self.wf(),
                name.is_ascii(),
                len == self@.len(),
                is_str_start(self@, idx as int),
                exists|i: int|
                    is_str_start(self@, i) && i >= idx && str_at(self@, i) == name@,
                forall|j: int|
                    is_str_start(self@, j) && j < idx ==> str_at(self@, j) != name@,
            decreases self@.len() - idx,
        {
            let s = self.get_from(idx);
            let matched = crate::endian::str_eq_bytes(name, s.as_slice());
            proof {
                crate::endian::lemma_chars_bytes_roundtrip(name@);
                crate::endian::lemma_bytes_chars_roundtrip(s@);
                if s@ == bytes_of_chars(name@) {
                    assert(str_at(self@, idx as int) == chars_of_bytes(bytes_of_chars(name@)));
                }
                if str_at(self@, idx as int) == name@ {
                    assert(bytes_of_chars(chars_of_bytes(s@)) == bytes_of_chars(name@));
                }
            }
            if matched {
                return idx;
            }
            assert(str_at(self@, idx as int) != name@);
            proof {
                // the matching string starts strictly later, so the jump to
                // the next string start stays within bounds
                let w = choose|i: int|
                    is_str_start(self@, i) && i >= idx && str_at(self@, i) == name@;
                assert(w > idx);
                lemma_next_start(self@, idx as int, w);
                let next = idx + str_at(self@, idx as int).len() + 1;
                assert(w >= next);
                assert forall|j: int|
                    is_str_start(self@, j) && j < next implies str_at(self@, j) != name@ by {
                    if idx < j < next {
                        assert(self@[j - 1] != 0);
                    }
                }
            }
            idx = idx + s.len() + 1;
        }
    }

    /// The bytes of the string starting at byte offset `idx`, and nothing
    /// of what follows its NUL.
    fn get_from(&self, idx: usize) -> (r: Vec<u8>)
        requires
            self.wf(),
            1 <= idx <= self@.len(),
        ensures
            r@ == take_until_nul(self@.subrange(idx as int, self@.len() as int)),
            idx + r@.len() <= self@.len(),
            idx + r@.len() == self@.len() || self@[idx + r@.len()] == 0,
            forall|k: int| idx <= k < idx + r@.len() ==> self@[k] != 0,
            forall|k: int| 0 <= k < r@.len() ==> (#[trigger] r@[k]) < 128,
    {
        let len: usize = self.data.len();
        let ghost field = self@.subrange(idx as int, self@.len() as int);
        let mut v: Vec<u8> = Vec::new();
        let mut i: usize = idx;
        while i < len && self.data[i] != 0
            invariant
                self.wf(),
                idx <= i <= len,
                len == self@.len(),
                field == self@.subrange(idx as int, self@.len() as int),
                v@ == field.subrange(0, i - idx),
                forall|k: int| 0 <= k < i - idx ==> field[k] != 0,
            decreases len - i,
        {
            v.push(self.data[i]);
            assert(v@ =~= field.subrange(0, i + 1 - idx));
            i += 1;
        }
        proof {
            crate::endian::lemma_take_until_nul_of_prefix(field, i - idx);
            assert(v@ =~= take_until_nul(field));
            assert forall|k: int| idx <= k < idx + v@.len() implies self@[k] != 0 by {
                assert(field[k - idx] != 0);
            }
            assert forall|k: int| 0 <= k < v@.len() implies (#[trigger] v@[k]) < 128 by {
                assert(v@[k] == field[k]);
                assert(field[k] == self@[idx + k]);
            }
        }
        v
    }
}

/// From one string start, the position just past the string's NUL is again
/// a string start, and no string start lies strictly between; so a string
/// start `w` past `idx` is at or past that position.
proof fn lemma_next_start(data: Seq<u8>, idx: int, w: int)
    requires
        1 <= idx <= data.len(),
        data[data.len() - 1] == 0,
        is_str_start(data, w),
        w > idx,
    ensures
        w >= idx + str_at(data, idx).len() + 1,
        is_str_start(data, idx + str_at(data, idx).len() + 1),
        str_at(data, idx).len() + idx < data.len(),
{
    let field = data.subrange(idx, data.len() as int);
    let n = take_until_nul_len(field);
    assert(str_at(data, idx).len() == n);
    // inside the string there is no NUL, so no string start can begin at
    // idx + 1 ..= idx + n; and data[idx + n] is a NUL
    assert(data[w - 1] == 0);
    if w <= idx + n {
        assert(field[w - 1 - idx] != 0);
        assert(false);
    }
}

/// The length of the prefix before the first NUL; the byte at that length
/// is a NUL when one exists, and no earlier byte is.
proof fn take_until_nul_len(bs: Seq<u8>) -> (n: int)
    ensures
        n == take_until_nul(bs).len(),
        0 <= n <= bs.len(),
        forall|k: int| 0 <= k < n ==> bs[k] != 0,
        n < bs.len() ==> bs[n] == 0,
        (exists|k: int| 0 <= k < bs.len() && bs[k] == 0) ==> n < bs.len(),
    decreases bs.len(),
{
    if bs.len() == 0 {
        0
    } else if bs[0] == 0 {
        0
    } else {
        let m = take_until_nul_len(bs.drop_first());
        assert forall|k: int| 0 <= k < m + 1 implies bs[k] != 0 by {
            if k > 0 {
                assert(bs.drop_first()[k - 1] != 0);
            }
        }
        if exists|k: int| 0 <= k < bs.len() && bs[k] == 0 {
            let k0 = choose|k: int| 0 <= k < bs.len() && bs[k] == 0;
            assert(k0 > 0);
            assert(bs.drop_first()[k0 - 1] == 0);
        }
        m + 1
    }
}

} // verus!
