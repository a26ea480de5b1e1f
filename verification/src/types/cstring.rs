//! Heap-allocated, NUL-terminated C strings.

use vstd::prelude::*;
use crate::error::{Error, EINVAL};
use crate::kalloc::Flags;

verus! {

/// The bytes form a C string: at least the terminator, NUL last, and no
/// NUL before it.
pub open spec fn is_c_string(b: Seq<u8>) -> bool {
    &&& b.len() >= 1
    &&& b.last() == 0
    &&& forall|i: int| 0 <= i < b.len() - 1 ==> b[i] != 0
}

/// The byte is shown as itself: printable ASCII (not a control character).
pub open spec fn shown_as_is(b: u8) -> bool {
    0x20 <= b <= 0x7e
}

/// Lower-case hexadecimal digit of `d` (0..16).
pub open spec fn hex_digit(d: int) -> u8 {
    if d < 10 {
        (48 + d) as u8
    } else {
        (87 + d) as u8
    }
}

/// How one byte is displayed: as itself, or escaped as `\xNN`.
pub open spec fn display_byte(b: u8) -> Seq<u8> {
    if shown_as_is(b) {
        seq![b]
    } else {
        seq![92u8, 120u8, hex_digit(b as int / 16), hex_digit(b as int % 16)]
    }
}

/// How a byte string is displayed.
pub open spec fn display_bytes(s: Seq<u8>) -> Seq<u8>
    decreases s.len(),
{
    if s.len() == 0 {
        Seq::empty()
    } else {
        display_bytes(s.drop_last()) + display_byte(s.last())
    }
}

/// A heap-allocated, NUL-terminated byte string with no interior NUL.
pub struct CString {
    buf: Vec<u8>,
}

impl View for CString {
    type V = Seq<u8>;

    /// The bytes, including the terminator.
    closed spec fn view(&self) -> Seq<u8> {
        self.buf@
    }
}

impl CString {
    /// The bytes form a C string.
    pub open spec fn wf(&self) -> bool {
        is_c_string(self@)
    }

    /// Create a `CString` from bytes without a terminator; the NUL is
    /// appended. `EINVAL` if `data` contains a NUL byte.
    pub fn try_from_slice(data: &[u8], flags: Flags) -> (r: Result<Self, Error>)
        ensures
            (exists|i: int| 0 <= i < data@.len() && data@[i] == 0) ==> (r matches Err(e) && e@ == -EINVAL),
            (forall|i: int| 0 <= i < data@.len() ==> data@[i] != 0) ==> (r matches Ok(s) && s.wf() && s@
                == data@.push(0)),
    {
        let mut i: usize = 0;
        while i < data.len()
            invariant
                i <= data@.len(),
                forall|j: int| 0 <= j < i ==> data@[j] != 0,
            decreases data@.len() - i,
        {
            if data[i] == 0 {
                return Err(Error::einval());
            }
            i = i + 1;
        }
        let mut buf: Vec<u8> = Vec::new();
        let mut k: usize = 0;
        while k < data.len()
            invariant
                k <= data@.len(),
                buf@ == data@.take(k as int),
            decreases data@.len() - k,
        {
            buf.push(data[k]);
            k = k + 1;
            assert(data@.take(k as int) == data@.take((k - 1) as int).push(data@[k - 1]));
        }
        assert(data@.take(data@.len() as int) == data@);
        buf.push(0);
        Ok(CString { buf })
    }

    /// Create a `CString` by copying the bytes of a C string (terminator
    /// included).
    pub fn try_from_cstr(s: &[u8], flags: Flags) -> (r: Result<Self, Error>)
        requires
            is_c_string(s@),
        ensures
            r matches Ok(c) && c.wf() && c@ == s@,
    {
        let mut buf: Vec<u8> = Vec::new();
        let mut k: usize = 0;
        while k < s.len()
            invariant
                k <= s@.len(),
                buf@ == s@.take(k as int),
            decreases s@.len() - k,
        {
            buf.push(s[k]);
            k = k + 1;
            assert(s@.take(k as int) == s@.take((k - 1) as int).push(s@[k - 1]));
        }
        assert(s@.take(s@.len() as int) == s@);
        Ok(CString { buf })
    }

    /// The bytes including the terminator.
    pub fn as_bytes_with_nul(&self) -> (b: &[u8])
        ensures
            b@ == self@,
    {
        self.buf.as_slice()
    }

    /// Length of the string, without the terminator.
    pub fn len(&self) -> (n: usize)
        requires
            self.wf(),
        ensures
            n == self@.len() - 1,
    {
        self.buf.len() - 1
    }

    /// Whether the string is empty (only the terminator).
    pub fn is_empty(&self) -> (b: bool)
        requires
            self.wf(),
        ensures
            b == (self@.len() == 1),
    {
        self.len() == 0
    }

    /// The bytes including the terminator, giving up the string.
    pub fn into_bytes_with_nul(self) -> (b: Vec<u8>)
        ensures
            b@ == self@,
    {
        self.buf
    }

    /// The string as displayed: printable ASCII as is, every other byte as
    /// `\xNN` in lower-case hexadecimal; the terminator is not shown.
    pub fn display(&self) -> (out: Vec<u8>)
        requires
            self.wf(),
        ensures
            out@ == display_bytes(self@.drop_last()),
    {
        let n = self.buf.len() - 1;
        let ghost text = self@.drop_last();
        let mut out: Vec<u8> = Vec::new();
        let mut i: usize = 0;
        while i < n
            invariant
                n + 1 == self.buf@.len(),
                n == text.len(),
                text == self@.drop_last(),
                i <= n,
                out@ == display_bytes(text.take(i as int)),
            decreases n - i,
        {
            let b = self.buf[i];
            assert(b == text[i as int]);
            if 0x20 <= b && b <= 0x7e {
                out.push(b);
            } else {
                out.push(92);
                out.push(120);
                out.push(hex_char(b / 16));
                out.push(hex_char(b % 16));
            }
            proof {
                let t = text.take((i + 1) as int);
                assert(t.drop_last() == text.take(i as int));
                assert(t.last() == b);
            }
            i = i + 1;
        }
        assert(text.take(n as int) == text);
        out
    }
}

/// Lower-case hexadecimal digit of `d`.
fn hex_char(d: u8) -> (c: u8)
    requires
        d < 16,
    ensures
        c == hex_digit(d as int),
{
    if d < 10 {
        48 + d
    } else {
        87 + d
    }
}

/// The hexadecimal digits are ASCII `0`-`9` then lower-case `a`-`f`: digit
/// `d` below 10 is the character `'0' + d` (48 + d), and digit `d` from 10
/// to 15 is `'a' + (d - 10)` (97 + d - 10); so `0` is 48, `9` is 57, `a`
/// (ten) is 97 and `f` (fifteen) is 102.
pub proof fn lemma_hex_digits(d: int)
    requires
        0 <= d < 16,
    ensures
        d < 10 ==> hex_digit(d) == 48 + d,
        10 <= d ==> hex_digit(d) == 97 + (d - 10),
        hex_digit(0) == 48u8,
        hex_digit(9) == 57u8,
        hex_digit(10) == 97u8,
        hex_digit(15) == 102u8,
{
}

/// The value of an ASCII hexadecimal digit (`0`-`9`, `a`-`f`).
pub open spec fn hex_value(c: u8) -> int {
    if 48 <= c <= 57 {
        c - 48
    } else if 97 <= c <= 102 {
        c - 97 + 10
    } else {
        -1
    }
}

/// An escaped byte reads back as itself: a byte that is not shown as is
/// is displayed as `\`, `x` and two lower-case hexadecimal digits whose
/// value is the byte, high digit first; a printable byte is displayed as
/// itself.
pub proof fn lemma_display_byte_reads_back(b: u8)
    ensures
        shown_as_is(b) ==> display_byte(b) == seq![b],
        !shown_as_is(b) ==> display_byte(b).len() == 4 && display_byte(b)[0] == 92u8 && display_byte(b)[1]
            == 120u8 && 0 <= hex_value(display_byte(b)[2]) && 0 <= hex_value(display_byte(b)[3])
            && hex_value(display_byte(b)[2]) * 16 + hex_value(display_byte(b)[3]) == b,
{
    if !shown_as_is(b) {
        let hi = b as int / 16;
        let lo = b as int % 16;
        assert(0 <= hi < 16 && 0 <= lo < 16);
        assert(hex_value(hex_digit(hi)) == hi);
        assert(hex_value(hex_digit(lo)) == lo);
    }
}

} // verus!
