//! Kernel time types: `Time` for inode timestamps and `Ktime` for
//! monotonic kernel time in nanoseconds.

use vstd::prelude::*;

verus! {

/// Nanoseconds in a millisecond.
pub const NSEC_PER_MSEC: i64 = 1_000_000;
/// Nanoseconds in a second.
pub const NSEC_PER_SEC: i64 = 1_000_000_000;

/// Timestamp with second + nanosecond resolution (inode atime, mtime,
/// ctime).
#[derive(Copy, Clone, Debug, Default, PartialEq, Eq, Structural)]
pub struct Time {
    /// Seconds since the Unix epoch.
    pub secs: u64,
    /// Nanoseconds within the second (0..999_999_999).
    pub nsecs: u32,
}

impl Time {
    /// The Unix epoch (1970-01-01 00:00:00 UTC).
    pub fn zero() -> (t: Self)
        ensures
            t.secs == 0 && t.nsecs == 0,
    {
        Time { secs: 0, nsecs: 0 }
    }

    /// Create a timestamp from seconds only.
    pub fn from_secs(secs: u64) -> (t: Self)
        ensures
            t.secs == secs && t.nsecs == 0,
    {
        Time { secs, nsecs: 0 }
    }
}

/// Monotonic kernel time in nanoseconds (wraps `ktime_t`): a duration-like
/// value for measuring intervals.
#[derive(Copy, Clone, Debug, PartialEq, Eq, Structural, PartialOrd, Ord)]
pub struct Ktime(i64);

impl View for Ktime {
    type V = i64;

    /// The value in nanoseconds.
    closed spec fn view(&self) -> i64 {
        self.0
    }
}

/// Integer division rounding toward zero, as Rust's `/` does.
pub open spec fn div_toward_zero(a: int, b: int) -> int
    recommends
        b > 0,
{
    if a >= 0 {
        a / b
    } else {
        -((-a) / b)
    }
}

impl Ktime {
    /// Zero duration.
    pub fn zero() -> (k: Self)
        ensures
            k@ == 0,
    {
        Ktime(0)
    }

    /// Create from raw nanoseconds.
    pub fn from_ns(ns: i64) -> (k: Self)
        ensures
            k@ == ns,
    {
        Ktime(ns)
    }

    /// Create from milliseconds.
    pub fn from_ms(ms: i64) -> (k: Self)
        requires
            i64::MIN <= ms * NSEC_PER_MSEC <= i64::MAX,
        ensures
            k@ == ms * NSEC_PER_MSEC,
    {
        Ktime(ms * NSEC_PER_MSEC)
    }

    /// Create from seconds.
    pub fn from_secs(secs: i64) -> (k: Self)
        requires
            i64::MIN <= secs * NSEC_PER_SEC <= i64::MAX,
        ensures
            k@ == secs * NSEC_PER_SEC,
    {
        Ktime(secs * NSEC_PER_SEC)
    }

    /// Returns the raw nanosecond value.
    pub fn to_ns(self) -> (ns: i64)
        ensures
            ns == self@,
    {
        self.0
    }

    /// Returns the value in milliseconds, truncated toward zero.
    pub fn to_ms(self) -> (ms: i64)
        ensures
            ms == div_toward_zero(self@ as int, NSEC_PER_MSEC as int),
    {
        self.0 / NSEC_PER_MSEC
    }
}

/// Converting whole milliseconds to nanoseconds and reading back gives the
/// same count: `to_ms` undoes `from_ms`.
pub proof fn lemma_ktime_round_trip(ms: i64)
    requires
        i64::MIN <= ms * NSEC_PER_MSEC <= i64::MAX,
    ensures
        div_toward_zero(ms * NSEC_PER_MSEC, NSEC_PER_MSEC as int) == ms,
{
    if ms >= 0 {
        assert((ms * 1_000_000) / 1_000_000 == ms) by (nonlinear_arith);
    } else {
        assert((-(ms * 1_000_000)) / 1_000_000 == -ms) by (nonlinear_arith)
            requires ms < 0;
    }
}

/// The unit sizes: a millisecond is a million nanoseconds and a second a
/// thousand milliseconds.
pub proof fn lemma_time_units()
    ensures
        NSEC_PER_MSEC == 1_000_000i64,
        NSEC_PER_SEC == 1_000i64 * NSEC_PER_MSEC,
{
}

/// Reading milliseconds truncates toward zero: the whole milliseconds
/// returned, taken back to nanoseconds, lie between zero and the value and
/// less than a millisecond from it.
pub proof fn lemma_to_ms_truncates(ns: int)
    ensures
        ({
            let m = div_toward_zero(ns, 1_000_000);
            &&& ns >= 0 ==> 0 <= m * 1_000_000 <= ns < m * 1_000_000 + 1_000_000
            &&& ns < 0 ==> m * 1_000_000 - 1_000_000 < ns <= m * 1_000_000 <= 0
        }),
{
    if ns >= 0 {
        assert(0 <= (ns / 1_000_000) * 1_000_000 <= ns < (ns / 1_000_000) * 1_000_000 + 1_000_000)
            by (nonlinear_arith)
            requires ns >= 0;
    } else {
        let p = -ns;
        assert(0 <= (p / 1_000_000) * 1_000_000 <= p < (p / 1_000_000) * 1_000_000 + 1_000_000)
            by (nonlinear_arith)
            requires p > 0;
    }
}

} // verus!
