//! Points in time, as the ring records them.
//!
//! A `Timestamp` keeps a clock reading as three plain numbers, so that the
//! arithmetic on readings can be proved. Reading the clock and writing a
//! reading as text are left to `chrono`.

use vstd::prelude::*;

verus! {

/// The earliest second that can be recorded: the first second of the year
/// -262143, counted from the Unix epoch.
pub const MIN_SECS: i64 = -8_334_601_228_800;

/// The latest second that can be recorded: the last second of the year
/// 262142, counted from the Unix epoch.
pub const MAX_SECS: i64 = 8_210_266_876_799;

/// Nanoseconds in one second.
pub const NANOS_PER_SEC: u32 = 1_000_000_000;

/// Seconds in one day. A zone's offset from UTC is strictly smaller.
pub const SECS_PER_DAY: i32 = 86_400;

/// A reading of the local clock: an instant, and the local zone's offset
/// from UTC at that instant.
#[derive(Clone, Copy, Debug, PartialEq, Eq, Structural)]
pub struct Timestamp {
    secs: i64,
    nanos: u32,
    offset: i32,
}

impl Timestamp {
    /// Which triples of numbers make a reading: the second lies in the
    /// range of years that the calendar covers, the nanoseconds stay below
    /// one second, and the offset stays below one day either way.
    pub open spec fn valid_parts(secs: int, nanos: int, offset: int) -> bool {
        &&& MIN_SECS <= secs <= MAX_SECS
        &&& 0 <= nanos < NANOS_PER_SEC
        &&& -SECS_PER_DAY < offset < SECS_PER_DAY
    }

    #[verifier::type_invariant]
    spec fn inv(self) -> bool {
        Self::valid_parts(self.secs as int, self.nanos as int, self.offset as int)
    }

    /// Whole seconds since the Unix epoch, in UTC.
    pub closed spec fn secs(self) -> int {
        self.secs as int
    }

    /// Nanoseconds since the last whole second.
    pub closed spec fn nanos(self) -> int {
        self.nanos as int
    }

    /// Seconds that local time is ahead of UTC.
    pub closed spec fn offset(self) -> int {
        self.offset as int
    }

    /// Whether the three numbers of this reading make a reading. Every
    /// value that executable code holds does; a value that only a proof
    /// speaks of may be arbitrary.
    pub open spec fn wf(self) -> bool {
        Self::valid_parts(self.secs(), self.nanos(), self.offset())
    }

    /// Nanoseconds on the local wall clock since the Unix epoch: what a
    /// clock on the wall shows, zone offset included.
    pub open spec fn local_nanos(self) -> int {
        (self.secs() + self.offset()) * NANOS_PER_SEC + self.nanos()
    }

    /// Makes a reading from its three numbers, if they make one.
    pub fn new(secs: i64, nanos: u32, offset: i32) -> (r: Option<Timestamp>)
        ensures
            r is Some <==> Self::valid_parts(secs as int, nanos as int, offset as int),
            r matches Some(t) ==> t.secs() == secs && t.nanos() == nanos && t.offset() == offset
                && t.wf(),
    {
        if MIN_SECS <= secs && secs <= MAX_SECS && nanos < NANOS_PER_SEC && -SECS_PER_DAY < offset
            && offset < SECS_PER_DAY {
            Some(Timestamp { secs, nanos, offset })
        } else {
            None
        }
    }

    /// The Unix epoch, in UTC.
    pub fn epoch() -> (t: Timestamp)
        ensures
            t.secs() == 0,
            t.nanos() == 0,
            t.offset() == 0,
            t.wf(),
    {
        Timestamp { secs: 0, nanos: 0, offset: 0 }
    }

    /// The current reading of the local clock.
    pub fn now() -> (t: Timestamp)
        ensures
            t.wf(),
    {
        let (secs, nanos, offset) = read_local_clock();
        Timestamp { secs, nanos, offset }
    }

    /// Whole seconds since the Unix epoch, in UTC.
    pub fn unix_secs(&self) -> (r: i64)
        ensures
            r == self.secs(),
    {
        self.secs
    }

    /// Nanoseconds since the last whole second.
    pub fn subsec_nanos(&self) -> (r: u32)
        ensures
            r == self.nanos(),
    {
        self.nanos
    }

    /// Seconds that local time is ahead of UTC.
    pub fn utc_offset(&self) -> (r: i32)
        ensures
            r == self.offset(),
    {
        self.offset
    }

    /// Nanoseconds on the local wall clock from `earlier` to `self`;
    /// negative where `self` shows the earlier time.
    pub fn local_nanos_since(&self, earlier: &Timestamp) -> (d: i128)
        ensures
            d == self.local_nanos() - earlier.local_nanos(),
    {
        proof {
            use_type_invariant(self);
            use_type_invariant(earlier);
        }
        let later_secs: i128 = self.secs as i128 + self.offset as i128;
        let earlier_secs: i128 = earlier.secs as i128 + earlier.offset as i128;
        let whole: i128 = (later_secs - earlier_secs) * 1_000_000_000;
        whole + (self.nanos as i128 - earlier.nanos as i128)
    }

    /// The reading as RFC 3339 text, such as `1996-12-19T16:39:57-08:00`.
    pub fn to_rfc3339(&self) -> (text: String)
        ensures
            text@ == rfc3339_text(self.secs(), self.nanos(), self.offset()),
    {
        proof {
            use_type_invariant(self);
        }
        format_rfc3339(self.secs, self.nanos, self.offset)
    }
}

/// The RFC 3339 text that `chrono` writes for the instant `secs` seconds
/// and `nanos` nanoseconds after the Unix epoch, seen from a zone that is
/// `offset` seconds ahead of UTC.
pub uninterp spec fn rfc3339_text(secs: int, nanos: int, offset: int) -> Seq<char>;

/// Calls `chrono::Local::now` and takes the reading apart with
/// `DateTime::timestamp`, `DateTime::timestamp_subsec_nanos` and
/// `FixedOffset::local_minus_utc`.
///
/// Trusted: every reading that `chrono` hands out lies within the years it
/// can represent, has less than a second of nanoseconds (the system clock
/// reports no leap second), and carries an offset of less than a day.
/// Nothing is claimed about which reading comes back.
#[verifier::external_body]
fn read_local_clock() -> (r: (i64, u32, i32))
    ensures
        Timestamp::valid_parts(r.0 as int, r.1 as int, r.2 as int),
{
    let reading = chrono::Local::now();
    (reading.timestamp(), reading.timestamp_subsec_nanos(), reading.offset().local_minus_utc())
}

/// Calls `chrono::DateTime::to_rfc3339` on the reading that
/// `DateTime::from_timestamp`, `FixedOffset::east_opt` and
/// `DateTime::with_timezone` rebuild from the three numbers.
///
/// Trusted: on numbers that make a reading, both constructors succeed,
/// and the text depends on the three numbers alone.
#[verifier::external_body]
fn format_rfc3339(secs: i64, nanos: u32, offset: i32) -> (text: String)
    requires
        Timestamp::valid_parts(secs as int, nanos as int, offset as int),
    ensures
        text@ == rfc3339_text(secs as int, nanos as int, offset as int),
{
    let utc = chrono::DateTime::from_timestamp(secs, nanos).expect("second within range");
    let zone = chrono::FixedOffset::east_opt(offset).expect("offset within a day");
    utc.with_timezone(&zone).to_rfc3339()
}

} // verus!
