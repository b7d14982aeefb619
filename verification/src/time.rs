//! Points in time and spans of time.

use vstd::prelude::*;

verus! {

broadcast use vstd::string::group_string_axioms;

/// A point in time: seconds since 1970-01-01T00:00:00Z and the nanoseconds
/// since that second. A leap second is written as the second before it with
/// a nanosecond count of one second or more.
#[derive(Clone, Copy, Debug, PartialEq, Eq, Structural)]
pub struct Timestamp {
    pub secs: i64,
    pub nanos: u32,
}

impl Timestamp {
    /// The calendar reaches from year -262143 to year 262142.
    pub open spec fn valid(self) -> bool {
        &&& -8_334_601_228_800 <= self.secs <= 8_210_266_876_799
        &&& self.nanos < 2_000_000_000
        &&& self.nanos >= 1_000_000_000 ==> self.secs as int % 60 == 59
    }

    /// Not inside a leap second.
    pub open spec fn ordinary(self) -> bool {
        self.nanos < 1_000_000_000
    }

    /// Nanoseconds since the epoch.
    pub open spec fn total_nanos(self) -> int {
        self.secs * 1_000_000_000 + self.nanos
    }

    /// The point comes before `other`: by its second, then by its nanoseconds.
    pub open spec fn before(self, other: Timestamp) -> bool {
        self.secs < other.secs || (self.secs == other.secs && self.nanos < other.nanos)
    }

    /// Whether this point comes before `other`.
    pub fn is_before(&self, other: Timestamp) -> (r: bool)
        ensures
            r == self.before(other),
    {
        self.secs < other.secs || (self.secs == other.secs && self.nanos < other.nanos)
    }

    /// Checks that the calendar has this point.
    pub fn is_valid(&self) -> (r: bool)
        ensures
            r == self.valid(),
    {
        if self.secs < -8_334_601_228_800 || self.secs > 8_210_266_876_799 {
            return false;
        }
        if self.nanos >= 2_000_000_000 {
            return false;
        }
        if self.nanos < 1_000_000_000 {
            return true;
        }
        let shifted: i64 = self.secs + 8_334_601_228_800;
        shifted % 60 == 59
    }
}

/// A signed span: whole seconds and the rest in nanoseconds, both with the
/// sign of the span.
#[derive(Clone, Copy, Debug, PartialEq, Eq, Structural)]
pub struct Span {
    pub secs: i64,
    pub nanos: i32,
}

impl Span {
    /// The rest is under one second and has the sign of the seconds.
    pub open spec fn valid(self) -> bool {
        &&& -20_000_000_000_000 <= self.secs <= 20_000_000_000_000
        &&& -1_000_000_000 < self.nanos < 1_000_000_000
        &&& self.secs > 0 ==> self.nanos >= 0
        &&& self.secs < 0 ==> self.nanos <= 0
    }

    /// The span in nanoseconds.
    pub open spec fn total_nanos(self) -> int {
        self.secs * 1_000_000_000 + self.nanos
    }

    /// Whole milliseconds, without sign.
    pub open spec fn abs_millis_spec(self) -> nat {
        let t = self.total_nanos();
        (if t < 0 {
            -t / 1_000_000
        } else {
            t / 1_000_000
        }) as nat
    }

    /// Whole milliseconds of the span, without its sign.
    pub fn abs_millis(&self) -> (r: u64)
        requires
            self.valid(),
        ensures
            r == self.abs_millis_spec(),
    {
        let s: i64 = if self.secs < 0 {
            -self.secs
        } else {
            self.secs
        };
        let n: i32 = if self.nanos < 0 {
            -self.nanos
        } else {
            self.nanos
        };
        (s as u64) * 1000 + ((n / 1_000_000) as u64)
    }
}

/// A length of time.
#[derive(Clone, Copy, Debug, PartialEq, Eq, Structural)]
pub struct Duration {
    pub secs: u64,
    pub nanos: u32,
}

impl Duration {
    /// The nanoseconds are under one second.
    pub open spec fn valid(self) -> bool {
        self.nanos < 1_000_000_000
    }

    /// Whole milliseconds.
    pub open spec fn millis(self) -> nat {
        (self.secs * 1000 + self.nanos / 1_000_000) as nat
    }

    /// No time at all.
    pub fn zero() -> (r: Duration)
        ensures
            r == (Duration { secs: 0, nanos: 0 }),
    {
        Duration { secs: 0, nanos: 0 }
    }

    /// A number of milliseconds.
    pub fn from_millis(ms: u64) -> (r: Duration)
        ensures
            r.valid(),
            r.millis() == ms,
            r.nanos % 1_000_000 == 0,
    {
        Duration { secs: ms / 1000, nanos: ((ms % 1000) as u32) * 1_000_000 }
    }

    /// Whole milliseconds in 64 bits, modulo their range.
    pub fn as_millis_u64(&self) -> (r: u64)
        ensures
            r == self.millis() % 0x1_0000_0000_0000_0000,
    {
        let ms: u128 = (self.secs as u128) * 1000 + ((self.nanos / 1_000_000) as u128);
        assert(#[verifier::truncate] (ms as u64) == ms % 0x1_0000_0000_0000_0000u128) by (bit_vector);
        #[verifier::truncate]
        (ms as u64)
    }
}

/// What chrono's `signed_duration_since` gives for two points, as whole
/// seconds and the rest in nanoseconds.
pub uninterp spec fn span_between(
    later_secs: i64,
    later_nanos: u32,
    earlier_secs: i64,
    earlier_nanos: u32,
) -> (int, int);

/// The RFC 3339 text that chrono writes for a point in time.
pub uninterp spec fn rfc3339_of(secs: i64, nanos: u32) -> Seq<char>;

/// The text that chrono writes for a point in time under the format
/// `%Y%m%dT%H%M%S`.
pub uninterp spec fn compact_of(secs: i64, nanos: u32) -> Seq<char>;

/// chrono's `DateTime::signed_duration_since`, read through `num_seconds` and
/// `subsec_nanos`. Outside leap seconds the span is the plain difference; how
/// a leap second is counted is left to the name.
#[verifier::external_body]
pub(crate) fn since(later: Timestamp, earlier: Timestamp) -> (r: Span)
    requires
        later.valid(),
        earlier.valid(),
    ensures
        r.valid(),
        span_between(later.secs, later.nanos, earlier.secs, earlier.nanos) == (
            r.secs as int,
            r.nanos as int,
        ),
        later.ordinary() && earlier.ordinary() ==> r.total_nanos() == later.total_nanos()
            - earlier.total_nanos(),
{
    let a = chrono::DateTime::from_timestamp(later.secs, later.nanos).expect("valid");
    let b = chrono::DateTime::from_timestamp(earlier.secs, earlier.nanos).expect("valid");
    let d = a.signed_duration_since(b);
    Span { secs: d.num_seconds(), nanos: d.subsec_nanos() }
}

/// chrono's `DateTime::to_rfc3339`.
#[verifier::external_body]
pub(crate) fn rfc3339(t: Timestamp) -> (r: String)
    requires
        t.valid(),
    ensures
        r@ == rfc3339_of(t.secs, t.nanos),
{
    chrono::DateTime::from_timestamp(t.secs, t.nanos).expect("valid").to_rfc3339()
}

/// chrono's `DateTime::format` with `%Y%m%dT%H%M%S`.
#[verifier::external_body]
pub(crate) fn compact(t: Timestamp) -> (r: String)
    requires
        t.valid(),
    ensures
        r@ == compact_of(t.secs, t.nanos),
{
    let at = chrono::DateTime::from_timestamp(t.secs, t.nanos).expect("valid");
    at.format("%Y%m%dT%H%M%S").to_string()
}

/// chrono's `Utc::now`: some point of the calendar.
#[verifier::external_body]
pub(crate) fn now() -> (t: Timestamp)
    ensures
        t.valid(),
{
    let at = chrono::Utc::now();
    Timestamp { secs: at.timestamp(), nanos: at.timestamp_subsec_nanos() }
}

// ── Laws ────────────────────────────────────────────────────

/// Time is a strict order: of two different points one comes before the other,
/// no point comes before itself, and outside leap seconds the earlier point is
/// the one with fewer nanoseconds since the epoch.
pub proof fn law_time_is_ordered(a: Timestamp, b: Timestamp, ab: bool, ba: bool)
    requires
        call_ensures(Timestamp::is_before, (&a, b), ab),
        call_ensures(Timestamp::is_before, (&b, a), ba),
    ensures
        !(ab && ba),
        ab || ba || a == b,
        a.nanos < 1_000_000_000 && b.nanos < 1_000_000_000 ==> (ab <==> a.secs * 1_000_000_000
            + a.nanos < b.secs * 1_000_000_000 + b.nanos),
{
}

/// The calendar has every nanosecond between its two ends; a second with more
/// than its nanoseconds only where a leap second may stand, at the end of a
/// minute.
pub proof fn law_calendar(t: Timestamp, r: bool)
    requires
        call_ensures(Timestamp::is_valid, (&t,), r),
    ensures
        r && t.nanos >= 1_000_000_000 ==> (t.secs + 1) % 60 == 0,
        t.nanos < 1_000_000_000 ==> (r <==> -8_334_601_228_800 <= t.secs < 8_210_266_876_800),
        t.nanos >= 2_000_000_000 ==> !r,
        0 <= t.secs < 4_000_000_000 && t.nanos < 1_000_000_000 ==> r,
        0 <= t.secs < 4_000_000_000 && t.nanos < 2_000_000_000 && (t.secs + 1) % 60 == 0 ==> r,
{
}

/// A span and its opposite have the same milliseconds, and these are what fits
/// whole into the span.
pub proof fn law_milliseconds_of_a_span(s: Span, opposite: Span, r: u64, q: u64)
    requires
        s.valid(),
        opposite.valid(),
        opposite.secs == -s.secs,
        opposite.nanos == -s.nanos,
        call_ensures(Span::abs_millis, (&s,), r),
        call_ensures(Span::abs_millis, (&opposite,), q),
    ensures
        r == q,
        s.secs >= 0 && s.nanos >= 0 ==> r * 1_000_000 <= s.secs * 1_000_000_000 + s.nanos < (r + 1)
            * 1_000_000,
{
}

/// Milliseconds survive being made into a length of time and back; no time has
/// none; and a length counts its whole milliseconds.
pub proof fn law_milliseconds_read_back(
    ms: u64,
    made: Duration,
    back: u64,
    none: Duration,
    d: Duration,
    r: u64,
)
    requires
        call_ensures(Duration::from_millis, (ms,), made),
        call_ensures(Duration::as_millis_u64, (&made,), back),
        call_ensures(Duration::zero, (), none),
        call_ensures(Duration::as_millis_u64, (&d,), r),
    ensures
        back == ms,
        made.secs * 1_000_000_000 + made.nanos == ms * 1_000_000,
        none.secs == 0 && none.nanos == 0,
        d.secs <= 1_000_000_000_000_000 ==> r * 1_000_000 <= d.secs * 1_000_000_000 + d.nanos < (r
            + 1) * 1_000_000,
{
}

} // verus!
