//! Kernel log formatting: the `KERN_*` level prefixes, the format strings
//! handed to `_printk`, and the bounded formatter that renders into the
//! kernel's output buffer.

use vstd::prelude::*;

verus! {

/// ASCII Start Of Header, the first byte of every `KERN_*` level prefix.
pub const KERN_SOH_ASCII: u8 = 1;

/// Length of each `_printk` format string.
pub const FORMAT_LENGTH: usize = 10;

/// The `KERN_*` prefix of log level `level` (0 emergency .. 7 debug): SOH,
/// the level digit, NUL.
pub fn kern_level(level: u8) -> (p: [u8; 3])
    requires
        level <= 7,
    ensures
        p@ == seq![KERN_SOH_ASCII, (48 + level) as u8, 0u8],
{
    [KERN_SOH_ASCII, 48 + level, 0]
}

/// The `KERN_CONT` prefix: SOH, `c`, NUL.
pub fn kern_cont() -> (p: [u8; 3])
    ensures
        p@ == seq![KERN_SOH_ASCII, 99u8, 0u8],
{
    [KERN_SOH_ASCII, 99, 0]
}

/// A valid prefix for `generate`: SOH, then `c` for a continuation or a
/// level digit otherwise, then NUL.
pub open spec fn valid_prefix(is_cont: bool, prefix: Seq<u8>) -> bool {
    &&& prefix[0] == KERN_SOH_ASCII
    &&& if is_cont {
        prefix[1] == 99
    } else {
        48 <= prefix[1] <= 55
    }
    &&& prefix[2] == 0
}

/// The format string for `prefix`: a continuation prints only the Rust
/// arguments (`%pA`), any other level prints the module prefix first
/// (`%s: %pA`); NUL-padded to `FORMAT_LENGTH` bytes.
pub open spec fn format_string(is_cont: bool, prefix: Seq<u8>) -> Seq<u8> {
    seq![prefix[0], prefix[1]] + if is_cont {
        seq![37u8, 112u8, 65u8, 0u8, 0u8, 0u8, 0u8, 0u8]
    } else {
        seq![37u8, 115u8, 58u8, 32u8, 37u8, 112u8, 65u8, 0u8]
    }
}

/// Build the `_printk` format string for a level prefix.
pub fn generate(is_cont: bool, prefix: &[u8; 3]) -> (f: [u8; FORMAT_LENGTH])
    requires
        valid_prefix(is_cont, prefix@),
    ensures
        f@ == format_string(is_cont, prefix@),
{
    let suffix: [u8; 8] = if is_cont {
        [37, 112, 65, 0, 0, 0, 0, 0]
    } else {
        [37, 115, 58, 32, 37, 112, 65, 0]
    };
    let f = [
        prefix[0],
        prefix[1],
        suffix[0],
        suffix[1],
        suffix[2],
        suffix[3],
        suffix[4],
        suffix[5],
        suffix[6],
        suffix[7],
    ];
    assert(f@ =~= format_string(is_cont, prefix@));
    f
}

/// Renders text into the byte range `[start, end)` of the kernel's output
/// buffer, silently truncating what does not fit.
pub struct RawFormatter {
    start: usize,
    end: usize,
    written: Vec<u8>,
}

impl RawFormatter {
    /// Start of the range.
    pub closed spec fn start(&self) -> usize {
        self.start
    }

    /// End of the range.
    pub closed spec fn end(&self) -> usize {
        self.end
    }

    /// The bytes written so far, from `start` on.
    pub closed spec fn contents(&self) -> Seq<u8> {
        self.written@
    }

    /// Room left: from the write position to the end, or none if the
    /// position is at or past the end.
    pub open spec fn avail(&self) -> int {
        if self.start() + self.contents().len() < self.end() {
            self.end() - (self.start() + self.contents().len())
        } else {
            0
        }
    }

    /// Bytes the range can hold: from the start to the end, none if the
    /// range is empty or inverted.
    pub open spec fn room(&self) -> int {
        if self.start() < self.end() {
            self.end() - self.start()
        } else {
            0
        }
    }

    /// The write position stays within the address space, and nothing is
    /// written outside the range.
    #[verifier::type_invariant]
    spec fn in_range(&self) -> bool {
        self.start + self.written@.len() <= usize::MAX
            && (self.start <= self.end ==> self.start + self.written@.len() <= self.end)
            && (self.start > self.end ==> self.written@.len() == 0)
    }

    /// A formatter writing into `[buf, end)`; if `buf >= end` nothing will
    /// be written.
    pub fn from_ptrs(buf: usize, end: usize) -> (f: Self)
        ensures
            f.start() == buf,
            f.end() == end,
            f.contents() == Seq::<u8>::empty(),
    {
        RawFormatter { start: buf, end, written: Vec::new() }
    }

    /// The current write position.
    pub fn pos(&self) -> (p: usize)
        ensures
            p == self.start() + self.contents().len(),
    {
        proof {
            use_type_invariant(self);
        }
        self.start + self.written.len()
    }

    /// Write as much of `s` as fits. The formatter never writes outside
    /// its range: what it holds fits between the start and the end, and an
    /// empty or inverted range holds nothing.
    pub fn write_str(&mut self, s: &[u8])
        ensures
            final(self).start() == old(self).start(),
            final(self).end() == old(self).end(),
            final(self).contents() == old(self).contents() + s@.take(
                if s@.len() < old(self).avail() { s@.len() as int } else { old(self).avail() },
            ),
            final(self).contents() == after_writes(old(self).contents(), old(self).room(), seq![s@]),
            final(self).contents().len() <= final(self).room(),
            final(self).start() <= final(self).end() ==> final(self).start() + final(self).contents().len()
                <= final(self).end(),
            final(self).start() >= final(self).end() ==> final(self).contents().len() == 0,
    {
        proof {
            use_type_invariant(&*self);
        }
        let pos = self.start + self.written.len();
        let avail = self.end.saturating_sub(pos);
        let len = s.len();
        let to_write = if len < avail {
            len
        } else {
            avail
        };
        let mut written = Vec::new();
        core::mem::swap(&mut written, &mut self.written);
        let ghost before = written@;
        let mut i: usize = 0;
        while i < to_write
            invariant
                i <= to_write <= s@.len(),
                written@ == before + s@.take(i as int),
            decreases to_write - i,
        {
            written.push(s[i]);
            i = i + 1;
            assert(s@.take(i as int) == s@.take((i - 1) as int).push(s@[i - 1]));
        }
        self.written = written;
        proof {
            let ss = seq![s@];
            let c = old(self).contents();
            assert(ss.drop_last() =~= Seq::<Seq<u8>>::empty());
            assert(after_writes(c, old(self).room(), Seq::<Seq<u8>>::empty()) == c);
            assert(old(self).avail() == old(self).room() - c.len());
        }
    }
}

/// The strings `ss` written one after the other.
pub open spec fn concat(ss: Seq<Seq<u8>>) -> Seq<u8>
    decreases ss.len(),
{
    if ss.len() == 0 {
        Seq::empty()
    } else {
        concat(ss.drop_last()) + ss.last()
    }
}

/// The smaller of two integers.
pub open spec fn min_int(a: int, b: int) -> int {
    if a < b {
        a
    } else {
        b
    }
}

/// What a formatter holding `c`, with room for `room` bytes, holds after
/// writing each of `ss` in turn, each write keeping what still fits.
pub open spec fn after_writes(c: Seq<u8>, room: int, ss: Seq<Seq<u8>>) -> Seq<u8>
    decreases ss.len(),
{
    if ss.len() == 0 {
        c
    } else {
        let prev = after_writes(c, room, ss.drop_last());
        prev + ss.last().take(min_int(ss.last().len() as int, room - prev.len()))
    }
}

/// One `write_str` is one step of [`after_writes`]: for a formatter whose
/// contents fit in its room, as every formatter's do, the room left for the
/// write is the formatter's room less what it already holds.
pub proof fn lemma_write_str_step(f: RawFormatter)
    requires
        f.contents().len() <= f.room(),
    ensures
        f.avail() == f.room() - f.contents().len(),
{
}

/// Several writes into a formatter keep the longest prefix of everything
/// written that fits: after writes `ss` into a formatter holding `c` with
/// room for `room` bytes, it holds `c` followed by as much of the
/// concatenation of `ss` as fits. Starting empty, the write position is
/// the start plus the smaller of the total length and the room, and no
/// byte lies past the room.
pub proof fn lemma_writes_keep_prefix(c: Seq<u8>, room: int, ss: Seq<Seq<u8>>)
    requires
        c.len() <= room,
    ensures
        after_writes(c, room, ss) == c + concat(ss).take(min_int(concat(ss).len() as int, room - c.len())),
        after_writes(c, room, ss).len() == c.len() + min_int(concat(ss).len() as int, room - c.len()),
        after_writes(c, room, ss).len() <= room,
    decreases ss.len(),
{
    if ss.len() > 0 {
        let rest = ss.drop_last();
        let last = ss.last();
        lemma_writes_keep_prefix(c, room, rest);
        let cp = concat(rest);
        let r = room - c.len();
        let prev = after_writes(c, room, rest);
        assert(concat(ss) == cp + last);
        if cp.len() >= r {
            assert(prev.len() == room);
            assert(last.take(0) =~= Seq::<u8>::empty());
            assert((cp + last).take(r) =~= cp.take(r));
            assert(after_writes(c, room, ss) =~= prev);
        } else {
            let k = min_int(last.len() as int, r - cp.len());
            assert(cp.take(cp.len() as int) =~= cp);
            assert((cp + last).take(cp.len() + k) =~= cp + last.take(k));
            assert(after_writes(c, room, ss) =~= c + concat(ss).take(min_int(concat(ss).len() as int, r)));
        }
    }
}

/// Writing `ss` and then `s` is writing `ss` followed by `s`: each
/// `write_str` call adds one string to the writes [`after_writes`]
/// describes, so a formatter that started empty holds, after any sequence
/// of `write_str` calls, the longest prefix of their concatenation that fits
/// ([`lemma_writes_keep_prefix`]), and its position is the start plus that
/// prefix's length.
pub proof fn lemma_write_after_writes(c: Seq<u8>, room: int, ss: Seq<Seq<u8>>, s: Seq<u8>)
    ensures
        after_writes(after_writes(c, room, ss), room, seq![s]) == after_writes(c, room, ss.push(s)),
{
    let one = seq![s];
    let prev = after_writes(c, room, ss);
    assert(one.drop_last() =~= Seq::<Seq<u8>>::empty());
    assert(after_writes(prev, room, Seq::<Seq<u8>>::empty()) == prev);
    assert(ss.push(s).drop_last() =~= ss);
}

/// The position after any number of writes: a formatter that started
/// empty and then had `ss` written into it, one `write_str` per string (so
/// that it holds `after_writes` of them, by [`RawFormatter::write_str`] and
/// [`lemma_write_after_writes`]), holds the longest prefix of their
/// concatenation that fits, and its position is its start plus the smaller
/// of their total length and its room.
pub proof fn lemma_formatter_after_writes(f: RawFormatter, ss: Seq<Seq<u8>>)
    requires
        f.contents() == after_writes(Seq::<u8>::empty(), f.room(), ss),
    ensures
        f.contents() == concat(ss).take(min_int(concat(ss).len() as int, f.room())),
        f.start() + f.contents().len() == f.start() + min_int(concat(ss).len() as int, f.room()),
        f.contents().len() <= f.room(),
{
    lemma_writes_keep_prefix(Seq::<u8>::empty(), f.room(), ss);
    assert(Seq::<u8>::empty() + concat(ss).take(min_int(concat(ss).len() as int, f.room())) =~= concat(
        ss,
    ).take(min_int(concat(ss).len() as int, f.room())));
}

} // verus!
