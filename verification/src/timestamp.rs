//! Moments in time, offsets from UTC, and the local date and time of a moment
//! at an offset.

use crate::calendar::Date;
use vstd::prelude::*;

verus! {

/// The first second that has a date: the start of the first supported year,
/// counted in seconds from the start of 1970 on the same clock.
pub const MIN_LOCAL_SECONDS: i64 = -377705116800;

/// The last second that has a date: the end of the last supported year,
/// counted in seconds from the start of 1970 on the same clock.
pub const MAX_LOCAL_SECONDS: i64 = 253402300799;

/// The largest offset from UTC, in seconds: 25:59:59, east or west.
pub const MAX_OFFSET_SECONDS: i32 = 93599;

/// An offset from UTC in whole seconds, positive to the east.
#[derive(Clone, Copy, Debug, PartialEq, Eq, Structural)]
pub struct UtcOffset {
    pub whole_seconds: i32,
}

impl UtcOffset {
    /// Whether the offset is one that a time zone can have.
    pub open spec fn is_valid(self) -> bool {
        -MAX_OFFSET_SECONDS <= self.whole_seconds <= MAX_OFFSET_SECONDS
    }

    /// The offset of the given number of seconds, if it is within range.
    pub fn from_whole_seconds(seconds: i32) -> (offset: Option<UtcOffset>)
        ensures
            offset == if (UtcOffset { whole_seconds: seconds }).is_valid() {
                Some(UtcOffset { whole_seconds: seconds })
            } else {
                None
            },
    {
        if -MAX_OFFSET_SECONDS <= seconds && seconds <= MAX_OFFSET_SECONDS {
            Some(UtcOffset { whole_seconds: seconds })
        } else {
            None
        }
    }
}

/// A date with the hour and minute of the day.
#[derive(Clone, Copy, Debug, PartialEq, Eq, Structural)]
pub struct LocalDateTime {
    pub date: Date,
    pub hour: u8,
    pub minute: u8,
}

impl LocalDateTime {
    /// Whether this is a minute of a day of the calendar.
    pub open spec fn is_valid(self) -> bool {
        &&& self.date.is_valid()
        &&& self.hour < 24
        &&& self.minute < 60
    }
}

/// The date that `time::OffsetDateTime::to_offset` gives when a clock at an
/// offset of `from_seconds` seconds, which reads `local_seconds` seconds
/// after the start of 1970, is moved to an offset of `to_seconds` seconds.
pub uninterp spec fn local_date(local_seconds: int, from_seconds: int, to_seconds: int) -> Date;

/// A moment in time, in whole seconds since the Unix epoch, with the offset
/// from UTC at which it was recorded.
#[derive(Clone, Copy, Debug, PartialEq, Eq, Structural)]
pub struct Timestamp {
    pub unix_seconds: i64,
    pub offset: UtcOffset,
}

/// The local date and time of `timestamp` at `offset`. The local clock is
/// ahead of UTC by the offset, and every day has 86400 seconds.
pub open spec fn local_date_time(timestamp: Timestamp, offset: UtcOffset) -> LocalDateTime {
    let seconds = timestamp.unix_seconds + offset.whole_seconds;
    LocalDateTime {
        date: local_date(
            timestamp.local_seconds(),
            timestamp.offset.whole_seconds as int,
            offset.whole_seconds as int,
        ),
        hour: ((seconds % 86400) / 3600) as u8,
        minute: ((seconds % 3600) / 60) as u8,
    }
}

impl Timestamp {
    /// What the clock at the timestamp's own offset reads, in seconds from
    /// the start of 1970.
    pub open spec fn local_seconds(self) -> int {
        self.unix_seconds + self.offset.whole_seconds
    }

    /// Whether the moment has a date at its own offset.
    pub open spec fn is_valid(self) -> bool {
        &&& self.offset.is_valid()
        &&& MIN_LOCAL_SECONDS <= self.local_seconds() <= MAX_LOCAL_SECONDS
    }

    /// Whether the moment has a date at `offset`: whether the local time
    /// there still lies in a supported year.
    pub open spec fn representable_in(self, offset: UtcOffset) -> bool {
        MIN_LOCAL_SECONDS <= self.unix_seconds + offset.whole_seconds <= MAX_LOCAL_SECONDS
    }

    /// The moment the given number of seconds after the Unix epoch, recorded
    /// at `offset`, if it has a date there.
    pub fn new(unix_seconds: i64, offset: UtcOffset) -> (timestamp: Option<Timestamp>)
        ensures
            timestamp == if (Timestamp { unix_seconds, offset }).is_valid() {
                Some(Timestamp { unix_seconds, offset })
            } else {
                None
            },
    {
        let local: i128 = unix_seconds as i128 + offset.whole_seconds as i128;
        let offset_in_range = -MAX_OFFSET_SECONDS <= offset.whole_seconds && offset.whole_seconds
            <= MAX_OFFSET_SECONDS;
        let local_in_range = MIN_LOCAL_SECONDS as i128 <= local && local
            <= MAX_LOCAL_SECONDS as i128;
        if offset_in_range && local_in_range {
            Some(Timestamp { unix_seconds, offset })
        } else {
            None
        }
    }

    /// The moment the given number of seconds after the Unix epoch, recorded
    /// in UTC, if it has a date there.
    pub fn from_unix_seconds(seconds: i64) -> (timestamp: Option<Timestamp>)
        ensures
            timestamp == if (Timestamp {
                unix_seconds: seconds,
                offset: UtcOffset { whole_seconds: 0 },
            }).is_valid() {
                Some(Timestamp { unix_seconds: seconds, offset: UtcOffset { whole_seconds: 0 } })
            } else {
                None
            },
    {
        Timestamp::new(seconds, UtcOffset { whole_seconds: 0 })
    }

    /// Whether the moment has a date at `offset`.
    pub fn is_representable_in(&self, offset: &UtcOffset) -> (representable: bool)
        ensures
            representable == self.representable_in(*offset),
    {
        let local: i128 = self.unix_seconds as i128 + offset.whole_seconds as i128;
        MIN_LOCAL_SECONDS as i128 <= local && local <= MAX_LOCAL_SECONDS as i128
    }

    /// The local date and time of the moment at `offset`.
    pub fn to_offset(self, offset: UtcOffset) -> (local: LocalDateTime)
        requires
            self.is_valid(),
            offset.is_valid(),
            self.representable_in(offset),
        ensures
            local == local_date_time(self, offset),
            local.is_valid(),
    {
        let local_seconds: i64 = self.unix_seconds + self.offset.whole_seconds as i64;
        shift_to_offset(local_seconds, self.offset.whole_seconds, offset.whole_seconds)
    }
}

/// The date, hour and minute of a local time after it is moved from one
/// offset to another, from `time::OffsetDateTime::to_offset`.
///
/// Trusted: the local date and time is built from its count of seconds with
/// `from_unix_timestamp` and set at its own offset with `replace_offset`,
/// which leaves date and time as they are; the offsets are built with
/// `from_whole_seconds`; and the date, hour and minute of what `to_offset`
/// gives are read back. The contract names the date and claims that it is a
/// day of the calendar; of the hour and minute it claims that they are those
/// of the clock at the second offset, which reads what the clock at the first
/// reads, less the first offset, plus the second. `to_offset` panics where
/// that local time leaves the supported years, which the last precondition
/// rules out.
#[verifier::external_body]
fn shift_to_offset(local_seconds: i64, from_seconds: i32, to_seconds: i32) -> (local: LocalDateTime)
    requires
        MIN_LOCAL_SECONDS <= local_seconds <= MAX_LOCAL_SECONDS,
        -MAX_OFFSET_SECONDS <= from_seconds <= MAX_OFFSET_SECONDS,
        -MAX_OFFSET_SECONDS <= to_seconds <= MAX_OFFSET_SECONDS,
        MIN_LOCAL_SECONDS <= local_seconds - from_seconds + to_seconds <= MAX_LOCAL_SECONDS,
    ensures
        local.date == local_date(local_seconds as int, from_seconds as int, to_seconds as int),
        local.date.is_valid(),
        local.hour == ((local_seconds - from_seconds + to_seconds) % 86400) / 3600,
        local.minute == ((local_seconds - from_seconds + to_seconds) % 3600) / 60,
{
    let from = time::UtcOffset::from_whole_seconds(from_seconds).unwrap();
    let to = time::UtcOffset::from_whole_seconds(to_seconds).unwrap();
    let clock = time::OffsetDateTime::from_unix_timestamp(local_seconds).unwrap();
    let shifted = clock.replace_offset(from).to_offset(to);
    let date = shifted.date();
    LocalDateTime {
        date: Date { year: date.year(), month: u8::from(date.month()), day: date.day() },
        hour: shifted.hour(),
        minute: shifted.minute(),
    }
}

} // verus!
