use crate::error::UuidError;
use crate::value::{variant_of, version_of, UuidValue, Variant};
use vstd::prelude::*;

verus! {

/// The count of 100-nanosecond ticks from 1582-10-15T00:00:00Z, where the
/// Gregorian timestamps of version 1 and version 6 start, to
/// 1970-01-01T00:00:00Z.
pub const GREGORIAN_TICKS_TO_UNIX_EPOCH: u64 = 0x01B2_1DD2_1381_4000;

/// The first second that the calendar represents: -262143-01-01T00:00:00Z.
pub const CALENDAR_MIN_SECONDS: i64 = -8_334_601_228_800;

/// The last second that the calendar represents: +262142-12-31T23:59:59Z.
pub const CALENDAR_MAX_SECONDS: i64 = 8_210_266_876_799;

/// A point in time: whole seconds from 1970-01-01T00:00:00Z, negative before
/// it, and the nanoseconds into that second.
#[derive(Clone, Copy, Debug, PartialEq, Eq, Structural)]
pub struct UnixTime {
    pub seconds: i64,
    pub nanos: u32,
}

impl View for UnixTime {
    type V = (int, int);

    open spec fn view(&self) -> (int, int) {
        (self.seconds as int, self.nanos as int)
    }
}

/// The first 48 bits of a layout, big-endian: the milliseconds of version 7.
pub open spec fn unix_millis_of(bytes: Seq<u8>) -> int
    recommends
        bytes.len() == 16,
{
    bytes[0] * 0x100_0000_0000 + bytes[1] * 0x1_0000_0000 + bytes[2] * 0x100_0000 + bytes[3]
        * 0x1_0000 + bytes[4] * 0x100 + bytes[5]
}

/// The 60-bit tick count of version 1: `time_hi` in the low twelve bits of
/// bytes 6 and 7, `time_mid` in bytes 4 and 5, `time_low` in bytes 0 to 3.
pub open spec fn gregorian_ticks_v1(bytes: Seq<u8>) -> int
    recommends
        bytes.len() == 16,
{
    let time_low = bytes[0] * 0x100_0000 + bytes[1] * 0x1_0000 + bytes[2] * 0x100 + bytes[3];
    let time_mid = bytes[4] * 0x100 + bytes[5];
    let time_hi = (bytes[6] % 16) * 0x100 + bytes[7];
    time_hi * 0x1_0000_0000_0000 + time_mid * 0x1_0000_0000 + time_low
}

/// The 60-bit tick count of version 6: the fields of version 1 in falling
/// order, so the first 48 bits hold the high part and the low twelve bits of
/// bytes 6 and 7 the rest.
pub open spec fn gregorian_ticks_v6(bytes: Seq<u8>) -> int
    recommends
        bytes.len() == 16,
{
    unix_millis_of(bytes) * 0x1000 + (bytes[6] % 16) * 0x100 + bytes[7]
}

/// Seconds and nanoseconds of a count of milliseconds from the Unix epoch.
pub open spec fn unix_time_of_millis(millis: int) -> (int, int) {
    (millis / 1000, (millis % 1000) * 1_000_000)
}

/// Seconds and nanoseconds, from the Unix epoch, of a count of ticks from the
/// Gregorian epoch. Before 1970 the seconds are negative and the nanoseconds
/// still count forward.
pub open spec fn unix_time_of_ticks(ticks: int) -> (int, int) {
    let since = ticks - GREGORIAN_TICKS_TO_UNIX_EPOCH;
    (since / 10_000_000, (since % 10_000_000) * 100)
}

/// The timestamp that a layout embeds: present exactly for versions 1, 6 and
/// 7 under the RFC variant.
pub open spec fn timestamp_of(bytes: Seq<u8>) -> Option<(int, int)>
    recommends
        bytes.len() == 16,
{
    if variant_of(bytes) != Variant::RFC4122 {
        None
    } else if version_of(bytes) == 1 {
        Some(unix_time_of_ticks(gregorian_ticks_v1(bytes)))
    } else if version_of(bytes) == 6 {
        Some(unix_time_of_ticks(gregorian_ticks_v6(bytes)))
    } else if version_of(bytes) == 7 {
        Some(unix_time_of_millis(unix_millis_of(bytes)))
    } else {
        None
    }
}

/// Whether the calendar has a date and time for these seconds and
/// nanoseconds. A count of nanoseconds of a full second or more stands for a
/// leap second, which only the last second of a minute can carry.
pub open spec fn in_calendar_range(seconds: int, nanos: int) -> bool {
    &&& CALENDAR_MIN_SECONDS <= seconds <= CALENDAR_MAX_SECONDS
    &&& 0 <= nanos < 2_000_000_000
    &&& nanos >= 1_000_000_000 ==> seconds % 60 == 59
}

/// `chrono::DateTime::<Utc>::from_timestamp`, asked only whether it gives a
/// date: it does for the seconds of the years -262143 to 262142, with less
/// than a second of nanoseconds, or less than two in the last second of a
/// minute.
#[verifier::external_body]
fn calendar_accepts(seconds: i64, nanos: u32) -> (accepted: bool)
    ensures
        accepted == in_calendar_range(seconds as int, nanos as int),
{
    chrono::DateTime::from_timestamp(seconds, nanos).is_some()
}

/// Splits a count of ticks from the Gregorian epoch into Unix seconds and
/// nanoseconds.
pub fn unix_time_from_ticks(ticks: u64) -> (t: UnixTime)
    ensures
        t@ == unix_time_of_ticks(ticks as int),
{
    if ticks >= GREGORIAN_TICKS_TO_UNIX_EPOCH {
        let since: u64 = ticks - GREGORIAN_TICKS_TO_UNIX_EPOCH;
        UnixTime { seconds: (since / 10_000_000) as i64, nanos: ((since % 10_000_000) as u32) * 100 }
    } else {
        let before: u64 = GREGORIAN_TICKS_TO_UNIX_EPOCH - ticks;
        let whole: u64 = before / 10_000_000;
        let part: u64 = before % 10_000_000;
        if part == 0 {
            UnixTime { seconds: -(whole as i64), nanos: 0 }
        } else {
            UnixTime { seconds: -(whole as i64) - 1, nanos: ((10_000_000 - part) as u32) * 100 }
        }
    }
}

/// Splits a count of milliseconds from the Unix epoch into seconds and
/// nanoseconds.
pub fn unix_time_from_millis(millis: u64) -> (t: UnixTime)
    ensures
        t@ == unix_time_of_millis(millis as int),
{
    UnixTime { seconds: (millis / 1000) as i64, nanos: ((millis % 1000) as u32) * 1_000_000 }
}

impl UnixTime {
    /// Passes the time on where the calendar can represent it.
    pub fn validate(self) -> (r: Result<UnixTime, UuidError>)
        ensures
            in_calendar_range(self@.0, self@.1) ==> r == Ok::<UnixTime, UuidError>(self),
            !in_calendar_range(self@.0, self@.1) ==> r == Err::<UnixTime, UuidError>(
                UuidError::InvalidTimestamp,
            ),
    {
        if calendar_accepts(self.seconds, self.nanos) {
            Ok(self)
        } else {
            Err(UuidError::InvalidTimestamp)
        }
    }
}

impl UuidValue {
    /// The embedded timestamp, present exactly for versions 1, 6 and 7 under
    /// the RFC variant.
    pub fn get_timestamp(&self) -> (t: Option<UnixTime>)
        ensures
            t is Some <==> timestamp_of(self@) is Some,
            t matches Some(x) ==> Some(x@) == timestamp_of(self@),
    {
        let version = self.get_version();
        let b = self.as_bytes();
        proof {
            self.lemma_view_len();
        }
        match self.get_variant() {
            Variant::RFC4122 => {
                let high: u64 = (b[0] as u64) * 0x100_0000_0000 + (b[1] as u64) * 0x1_0000_0000
                    + (b[2] as u64) * 0x100_0000 + (b[3] as u64) * 0x1_0000 + (b[4] as u64) * 0x100
                    + (b[5] as u64);
                let low: u64 = ((b[6] % 16) as u64) * 0x100 + (b[7] as u64);
                if version == 1 {
                    let time_low: u64 = (b[0] as u64) * 0x100_0000 + (b[1] as u64) * 0x1_0000 + (
                    b[2] as u64) * 0x100 + (b[3] as u64);
                    let time_mid: u64 = (b[4] as u64) * 0x100 + (b[5] as u64);
                    Some(
                        unix_time_from_ticks(
                            low * 0x1_0000_0000_0000 + time_mid * 0x1_0000_0000 + time_low,
                        ),
                    )
                } else if version == 6 {
                    Some(unix_time_from_ticks(high * 0x1000 + low))
                } else if version == 7 {
                    Some(unix_time_from_millis(high))
                } else {
                    None
                }
            },
            _ => None,
        }
    }
}

/// Every timestamp that a UUID can embed has a date in the calendar: the
/// Gregorian ticks reach from 1582 to 5236, the milliseconds from 1970 to
/// 10889.
pub proof fn lemma_embedded_timestamp_in_calendar(bytes: Seq<u8>)
    requires
        bytes.len() == 16,
    ensures
        timestamp_of(bytes) matches Some(t) ==> in_calendar_range(t.0, t.1) && 0 <= t.1
            < 1_000_000_000,
{
}

} // verus!
