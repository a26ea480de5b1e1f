//! Little-endian values for on-disk structure parsing.
//!
//! `LE<T>` is a value that is stored on disk in little-endian byte order;
//! [`FromBytes`] reads values out of a byte buffer.

use vstd::prelude::*;
use vstd::bytes::*;

verus! {

/// Integer types with a little-endian byte encoding.
pub trait LeInt: Copy + Sized {
    /// Number of bytes of the encoding.
    spec fn le_size() -> nat;

    /// The value that little-endian bytes `b` encode.
    spec fn spec_from_le_bytes(b: Seq<u8>) -> Self;

    /// The little-endian bytes of `v`.
    spec fn spec_to_le_bytes(v: Self) -> Seq<u8>;

    /// Number of bytes of the encoding.
    fn byte_len() -> (n: usize)
        ensures
            n == Self::le_size(),
    ;

    /// Decode little-endian bytes.
    fn from_le_bytes(b: &[u8]) -> (v: Self)
        requires
            b@.len() == Self::le_size(),
        ensures
            v == Self::spec_from_le_bytes(b@),
    ;

    /// Encode as little-endian bytes.
    fn to_le_bytes(v: Self) -> (b: Vec<u8>)
        ensures
            b@ == Self::spec_to_le_bytes(v),
    ;

    /// Decoding the encoding of a value gives the value back, and the
    /// encoding has `le_size()` bytes.
    proof fn lemma_le_round_trip(v: Self)
        ensures
            Self::spec_to_le_bytes(v).len() == Self::le_size(),
            Self::spec_from_le_bytes(Self::spec_to_le_bytes(v)) == v,
    ;
}

impl LeInt for u8 {
    open spec fn le_size() -> nat {
        1
    }

    open spec fn spec_from_le_bytes(b: Seq<u8>) -> u8 {
        b[0]
    }

    open spec fn spec_to_le_bytes(v: u8) -> Seq<u8> {
        seq![v]
    }

    fn byte_len() -> (n: usize) {
        1
    }

    fn from_le_bytes(b: &[u8]) -> (v: u8) {
        b[0]
    }

    fn to_le_bytes(v: u8) -> (b: Vec<u8>) {
        let mut b: Vec<u8> = Vec::new();
        b.push(v);
        b
    }

    proof fn lemma_le_round_trip(v: u8) {
    }
}

impl LeInt for i8 {
    open spec fn le_size() -> nat {
        1
    }

    open spec fn spec_from_le_bytes(b: Seq<u8>) -> i8 {
        b[0] as i8
    }

    open spec fn spec_to_le_bytes(v: i8) -> Seq<u8> {
        seq![v as u8]
    }

    fn byte_len() -> (n: usize) {
        1
    }

    fn from_le_bytes(b: &[u8]) -> (v: i8) {
        b[0] as i8
    }

    fn to_le_bytes(v: i8) -> (b: Vec<u8>) {
        let mut b: Vec<u8> = Vec::new();
        b.push(v as u8);
        b
    }

    proof fn lemma_le_round_trip(v: i8) {
        assert(((v as u8) as i8) == v) by (bit_vector);
    }
}

impl LeInt for u16 {
    open spec fn le_size() -> nat {
        2
    }

    open spec fn spec_from_le_bytes(b: Seq<u8>) -> u16 {
        spec_u16_from_le_bytes(b)
    }

    open spec fn spec_to_le_bytes(v: u16) -> Seq<u8> {
        spec_u16_to_le_bytes(v)
    }

    fn byte_len() -> (n: usize) {
        2
    }

    fn from_le_bytes(b: &[u8]) -> (v: u16) {
        u16_from_le_bytes(b)
    }

    fn to_le_bytes(v: u16) -> (b: Vec<u8>) {
        u16_to_le_bytes(v)
    }

    proof fn lemma_le_round_trip(v: u16) {
        lemma_auto_spec_u16_to_from_le_bytes();
        assert(spec_u16_to_le_bytes(v).len() == 2);
    }
}

impl LeInt for i16 {
    open spec fn le_size() -> nat {
        2
    }

    open spec fn spec_from_le_bytes(b: Seq<u8>) -> i16 {
        spec_u16_from_le_bytes(b) as i16
    }

    open spec fn spec_to_le_bytes(v: i16) -> Seq<u8> {
        spec_u16_to_le_bytes(v as u16)
    }

    fn byte_len() -> (n: usize) {
        2
    }

    fn from_le_bytes(b: &[u8]) -> (v: i16) {
        u16_from_le_bytes(b) as i16
    }

    fn to_le_bytes(v: i16) -> (b: Vec<u8>) {
        u16_to_le_bytes(v as u16)
    }

    proof fn lemma_le_round_trip(v: i16) {
        lemma_auto_spec_u16_to_from_le_bytes();
        assert(spec_u16_to_le_bytes(v as u16).len() == 2);
        assert(spec_u16_from_le_bytes(spec_u16_to_le_bytes(v as u16)) == v as u16);
        assert(((v as u16) as i16) == v) by (bit_vector);
    }
}

impl LeInt for u32 {
    open spec fn le_size() -> nat {
        4
    }

    open spec fn spec_from_le_bytes(b: Seq<u8>) -> u32 {
        spec_u32_from_le_bytes(b)
    }

    open spec fn spec_to_le_bytes(v: u32) -> Seq<u8> {
        spec_u32_to_le_bytes(v)
    }

    fn byte_len() -> (n: usize) {
        4
    }

    fn from_le_bytes(b: &[u8]) -> (v: u32) {
        u32_from_le_bytes(b)
    }

    fn to_le_bytes(v: u32) -> (b: Vec<u8>) {
        u32_to_le_bytes(v)
    }

    proof fn lemma_le_round_trip(v: u32) {
        lemma_auto_spec_u32_to_from_le_bytes();
        assert(spec_u32_to_le_bytes(v).len() == 4);
    }
}

impl LeInt for i32 {
    open spec fn le_size() -> nat {
        4
    }

    open spec fn spec_from_le_bytes(b: Seq<u8>) -> i32 {
        spec_u32_from_le_bytes(b) as i32
    }

    open spec fn spec_to_le_bytes(v: i32) -> Seq<u8> {
        spec_u32_to_le_bytes(v as u32)
    }

    fn byte_len() -> (n: usize) {
        4
    }

    fn from_le_bytes(b: &[u8]) -> (v: i32) {
        u32_from_le_bytes(b) as i32
    }

    fn to_le_bytes(v: i32) -> (b: Vec<u8>) {
        u32_to_le_bytes(v as u32)
    }

    proof fn lemma_le_round_trip(v: i32) {
        lemma_auto_spec_u32_to_from_le_bytes();
        assert(spec_u32_to_le_bytes(v as u32).len() == 4);
        assert(spec_u32_from_le_bytes(spec_u32_to_le_bytes(v as u32)) == v as u32);
        assert(((v as u32) as i32) == v) by (bit_vector);
    }
}

impl LeInt for u64 {
    open spec fn le_size() -> nat {
        8
    }

    open spec fn spec_from_le_bytes(b: Seq<u8>) -> u64 {
        spec_u64_from_le_bytes(b)
    }

    open spec fn spec_to_le_bytes(v: u64) -> Seq<u8> {
        spec_u64_to_le_bytes(v)
    }

    fn byte_len() -> (n: usize) {
        8
    }

    fn from_le_bytes(b: &[u8]) -> (v: u64) {
        u64_from_le_bytes(b)
    }

    fn to_le_bytes(v: u64) -> (b: Vec<u8>) {
        u64_to_le_bytes(v)
    }

    proof fn lemma_le_round_trip(v: u64) {
        lemma_auto_spec_u64_to_from_le_bytes();
        assert(spec_u64_to_le_bytes(v).len() == 8);
    }
}

impl LeInt for i64 {
    open spec fn le_size() -> nat {
        8
    }

    open spec fn spec_from_le_bytes(b: Seq<u8>) -> i64 {
        spec_u64_from_le_bytes(b) as i64
    }

    open spec fn spec_to_le_bytes(v: i64) -> Seq<u8> {
        spec_u64_to_le_bytes(v as u64)
    }

    fn byte_len() -> (n: usize) {
        8
    }

    fn from_le_bytes(b: &[u8]) -> (v: i64) {
        u64_from_le_bytes(b) as i64
    }

    fn to_le_bytes(v: i64) -> (b: Vec<u8>) {
        u64_to_le_bytes(v as u64)
    }

    proof fn lemma_le_round_trip(v: i64) {
        lemma_auto_spec_u64_to_from_le_bytes();
        assert(spec_u64_to_le_bytes(v as u64).len() == 8);
        assert(spec_u64_from_le_bytes(spec_u64_to_le_bytes(v as u64)) == v as u64);
        assert(((v as u64) as i64) == v) by (bit_vector);
    }
}

/// A value of type `T` that is stored on disk in little-endian byte order.
#[derive(Copy, Clone)]
pub struct LE<T: LeInt>(T);

impl<T: LeInt> View for LE<T> {
    type V = T;

    /// The native value.
    closed spec fn view(&self) -> T {
        self.0
    }
}

impl<T: LeInt> LE<T> {
    /// A little-endian value holding `val`.
    pub fn new(val: T) -> (r: Self)
        ensures
            r@ == val,
    {
        LE(val)
    }

    /// The value in native byte order.
    pub fn value(self) -> (v: T)
        ensures
            v == self@,
    {
        self.0
    }

    /// The bytes of this value as stored on disk.
    pub fn to_bytes(self) -> (b: Vec<u8>)
        ensures
            b@ == T::spec_to_le_bytes(self@),
    {
        T::to_le_bytes(self.0)
    }
}

/// Types that can be read from a byte buffer.
pub trait FromBytes: Sized {
    /// Number of bytes a value occupies.
    spec fn size() -> nat;

    /// The value that the bytes `b` (of length `size()`) hold.
    spec fn parse(b: Seq<u8>) -> Self;

    /// Number of bytes a value occupies.
    fn byte_size() -> (n: usize)
        ensures
            n == Self::size(),
    ;

    /// Read a value from exactly `size()` bytes.
    fn read(b: &[u8]) -> (v: Self)
        requires
            b@.len() == Self::size(),
        ensures
            v == Self::parse(b@),
    ;

    /// Read a value from `data` at byte offset `offset`; `None` if the
    /// buffer is too short.
    fn from_bytes(data: &[u8], offset: usize) -> (r: Option<Self>)
        ensures
            offset + Self::size() > data@.len() ==> r.is_none(),
            offset + Self::size() <= data@.len() ==> r == Some(
                Self::parse(data@.subrange(offset as int, offset + Self::size())),
            ),
    {
        let size = Self::byte_size();
        let dlen = data.len();
        let end = match offset.checked_add(size) {
            Some(e) => e,
            None => return None,
        };
        if end > dlen {
            return None;
        }
        let piece = slice_range(data, offset, end);
        Some(Self::read(piece.as_slice()))
    }

    /// Read consecutive values filling all of `data`; `None` if values
    /// have no size or `data` is not a whole number of values.
    fn from_bytes_to_slice(data: &[u8]) -> (r: Option<Vec<Self>>)
        ensures
            Self::size() == 0 || data@.len() % Self::size() != 0 ==> r.is_none(),
            Self::size() > 0 && data@.len() % Self::size() == 0 ==> (r matches Some(v) && {
                &&& v@.len() == data@.len() / Self::size()
                &&& forall|i: int| 0 <= i < v@.len() ==> #[trigger] v@[i] == Self::parse(
                    data@.subrange(i * Self::size(), i * Self::size() + Self::size()),
                )
            }),
    {
        let size = Self::byte_size();
        let dlen = data.len();
        if size == 0 || dlen % size != 0 {
            return None;
        }
        let count = dlen / size;
        let mut out: Vec<Self> = Vec::new();
        let mut i: usize = 0;
        while i < count
            invariant
                size == Self::size(),
                size > 0,
                dlen == data@.len(),
                count == data@.len() / (size as nat),
                data@.len() % (size as nat) == 0,
                i <= count,
                out@.len() == i,
                forall|j: int| 0 <= j < i ==> #[trigger] out@[j] == Self::parse(
                    data@.subrange(j * size, j * size + size),
                ),
            decreases count - i,
        {
            proof {
                assert(i * size + size <= count * size) by (nonlinear_arith)
                    requires i + 1 <= count, size > 0;
                assert(count * size == data@.len()) by (nonlinear_arith)
                    requires count == data@.len() / (size as nat), data@.len() % (size as nat) == 0, size > 0;
            }
            let start = i * size;
            let piece = slice_range(data, start, start + size);
            out.push(Self::read(piece.as_slice()));
            i = i + 1;
        }
        Some(out)
    }
}

/// A copy of `data[start..end]`.
fn slice_range(data: &[u8], start: usize, end: usize) -> (r: Vec<u8>)
    requires
        start <= end <= data@.len(),
    ensures
        r@ == data@.subrange(start as int, end as int),
{
    let mut r: Vec<u8> = Vec::new();
    let mut i = start;
    while i < end
        invariant
            start <= i <= end <= data@.len(),
            r@ == data@.subrange(start as int, i as int),
        decreases end - i,
    {
        r.push(data[i]);
        i = i + 1;
    }
    r
}

impl<T: LeInt> FromBytes for LE<T> {
    open spec fn size() -> nat {
        T::le_size()
    }

    /// The value the bytes encode in little-endian order.
    closed spec fn parse(b: Seq<u8>) -> LE<T> {
        LE(T::spec_from_le_bytes(b))
    }

    fn byte_size() -> (n: usize) {
        T::byte_len()
    }

    fn read(b: &[u8]) -> (v: LE<T>) {
        LE(T::from_le_bytes(b))
    }
}

/// A little-endian value read from bytes holds the value the bytes encode.
pub proof fn lemma_le_parse<T: LeInt>(b: Seq<u8>)
    ensures
        (<LE<T> as FromBytes>::parse(b))@ == T::spec_from_le_bytes(b),
{
}

/// Writing a value to disk and reading it back gives the same value: the
/// bytes of `LE::new(v)` parse as `v`.
pub proof fn lemma_le_bytes_round_trip<T: LeInt>(v: T)
    ensures
        T::spec_to_le_bytes(v).len() == <LE<T> as FromBytes>::size(),
        (<LE<T> as FromBytes>::parse(T::spec_to_le_bytes(v)))@ == v,
{
    T::lemma_le_round_trip(v);
}

/// One-byte values are their byte: `u8` and `i8` encode as the single byte
/// of their bits, and decode from the first byte.
pub proof fn lemma_le_layout_8(b: Seq<u8>, v: u8, w: i8)
    ensures
        <u8 as LeInt>::spec_to_le_bytes(v) == seq![v],
        <i8 as LeInt>::spec_to_le_bytes(w) == seq![w as u8],
        b.len() == 1 ==> <u8 as LeInt>::spec_from_le_bytes(b) == b[0],
        b.len() == 1 ==> <i8 as LeInt>::spec_from_le_bytes(b) as u8 == b[0],
{
    let x = b[0];
    assert(((x as i8) as u8) == x) by (bit_vector);
}

/// Two-byte values use the standard little-endian layout (the first byte
/// is the least significant), and every two bytes decode to the value
/// whose encoding they are.
pub proof fn lemma_le_layout_16(b: Seq<u8>, v: u16, w: i16)
    ensures
        <u16 as LeInt>::spec_to_le_bytes(v) == spec_u16_to_le_bytes(v),
        <i16 as LeInt>::spec_to_le_bytes(w) == spec_u16_to_le_bytes(w as u16),
        b.len() == 2 ==> <u16 as LeInt>::spec_from_le_bytes(b) == spec_u16_from_le_bytes(b),
        b.len() == 2 ==> <i16 as LeInt>::spec_from_le_bytes(b) as u16 == spec_u16_from_le_bytes(b),
        b.len() == 2 ==> <u16 as LeInt>::spec_to_le_bytes(<u16 as LeInt>::spec_from_le_bytes(b)) == b,
        b.len() == 2 ==> <i16 as LeInt>::spec_to_le_bytes(<i16 as LeInt>::spec_from_le_bytes(b)) == b,
{
    lemma_auto_spec_u16_to_from_le_bytes();
    let x = spec_u16_from_le_bytes(b);
    assert(((x as i16) as u16) == x) by (bit_vector);
}

/// Four-byte values use the standard little-endian layout (the first byte
/// is the least significant), and every four bytes decode to the value
/// whose encoding they are.
pub proof fn lemma_le_layout_32(b: Seq<u8>, v: u32, w: i32)
    ensures
        <u32 as LeInt>::spec_to_le_bytes(v) == spec_u32_to_le_bytes(v),
        <i32 as LeInt>::spec_to_le_bytes(w) == spec_u32_to_le_bytes(w as u32),
        b.len() == 4 ==> <u32 as LeInt>::spec_from_le_bytes(b) == spec_u32_from_le_bytes(b),
        b.len() == 4 ==> <i32 as LeInt>::spec_from_le_bytes(b) as u32 == spec_u32_from_le_bytes(b),
        b.len() == 4 ==> <u32 as LeInt>::spec_to_le_bytes(<u32 as LeInt>::spec_from_le_bytes(b)) == b,
        b.len() == 4 ==> <i32 as LeInt>::spec_to_le_bytes(<i32 as LeInt>::spec_from_le_bytes(b)) == b,
{
    lemma_auto_spec_u32_to_from_le_bytes();
    let x = spec_u32_from_le_bytes(b);
    assert(((x as i32) as u32) == x) by (bit_vector);
}

/// Eight-byte values are stored least significant byte first: byte `i` of
/// the encoding holds bits `8 * i` to `8 * i + 7` of the value; and every
/// eight bytes decode to the value whose encoding they are.
pub proof fn lemma_le_layout_64(b: Seq<u8>, v: u64, w: i64)
    ensures
        <u64 as LeInt>::spec_to_le_bytes(v) == seq![
            (v & 0xff) as u8,
            ((v >> 8u64) & 0xff) as u8,
            ((v >> 16u64) & 0xff) as u8,
            ((v >> 24u64) & 0xff) as u8,
            ((v >> 32u64) & 0xff) as u8,
            ((v >> 40u64) & 0xff) as u8,
            ((v >> 48u64) & 0xff) as u8,
            ((v >> 56u64) & 0xff) as u8,
        ],
        <i64 as LeInt>::spec_to_le_bytes(w) == spec_u64_to_le_bytes(w as u64),
        b.len() == 8 ==> <u64 as LeInt>::spec_to_le_bytes(<u64 as LeInt>::spec_from_le_bytes(b)) == b,
        b.len() == 8 ==> <i64 as LeInt>::spec_to_le_bytes(<i64 as LeInt>::spec_from_le_bytes(b)) == b,
{
    lemma_auto_spec_u64_to_from_le_bytes();
    spec_u64_to_le_bytes_to_open(v);
    if b.len() == 8 {
        let x = spec_u64_from_le_bytes(b);
        assert(((x as i64) as u64) == x) by (bit_vector);
        assert(spec_u64_to_le_bytes(spec_u64_from_le_bytes(b)) == b);
    }
}

} // verus!
