//! The per-channel envelope summary and the whole-cycle reading record.

use vstd::prelude::*;

verus! {

/// Lower end of the measurement range, in the converter's native integer
/// units. An empty summary parks `max` here so that any in-range sample
/// raises it.
pub const MINIMUM_READING: i16 = -8000;

/// Upper end of the measurement range. An empty summary parks `min` here so
/// that any in-range sample lowers it.
pub const MAXIMUM_READING: i16 = 8000;

/// A wall-clock instant, held as plain values: seconds since the Unix epoch,
/// the fractional part in nanoseconds, and the local offset from UTC in
/// seconds. The clock itself is read outside the verified code; nothing here
/// inspects these fields beyond carrying them into the reading record.
#[derive(Clone, Copy, Debug, PartialEq, Eq, Structural)]
pub struct Timestamp {
    pub unix_seconds: i64,
    pub subsec_nanos: u32,
    pub offset_seconds: i32,
}

/// The smaller of two sample values.
pub open spec fn lower_bound(a: i16, b: i16) -> i16 {
    if b < a {
        b
    } else {
        a
    }
}

/// The larger of two sample values.
pub open spec fn upper_bound(a: i16, b: i16) -> i16 {
    if b > a {
        b
    } else {
        a
    }
}

/// The envelope of one channel over one sampling window: the lowest and
/// highest sample folded in so far, and the instant the window was opened.
///
/// Freshly created, the pair sits at inverted sentinels
/// (`min == MAXIMUM_READING`, `max == MINIMUM_READING`), so `min > max`
/// signals that no sample has been folded in; the first in-range sample
/// restores `min <= max`.
#[derive(Clone, Copy, Debug, PartialEq, Eq, Structural)]
pub struct ChannelPowerReading {
    pub min: i16,
    pub max: i16,
    pub timestamp: Timestamp,
}

/// Relies on chrono's `Local::now` for the current wall-clock instant in the
/// local time zone, taken apart into plain values. The result depends on the
/// clock and the machine's time zone, so nothing is promised of the instant
/// itself; the bounds hold of every outcome: chrono's `FixedOffset` is only
/// ever built with an offset strictly within one day of UTC, and its
/// fractional second stays below two seconds even across a leap second.
#[verifier::external_body]
fn now_local() -> (t: Timestamp)
    ensures
        -86400 < t.offset_seconds < 86400,
        t.subsec_nanos < 2000000000,
{
    let now = chrono::Local::now();
    Timestamp {
        unix_seconds: now.timestamp(),
        subsec_nanos: now.timestamp_subsec_nanos(),
        offset_seconds: now.offset().local_minus_utc(),
    }
}

impl ChannelPowerReading {
    /// True of a summary still in its sentinel state: no sample was folded in.
    pub open spec fn is_sentinel(self) -> bool {
        self.min > self.max
    }

    /// An empty summary opening a window now: the inverted sentinel bounds,
    /// stamped with the current wall-clock instant. Nothing is promised of
    /// the instant itself beyond the representable clock bounds.
    pub fn new() -> (r: ChannelPowerReading)
        ensures
            r.min == MAXIMUM_READING,
            r.max == MINIMUM_READING,
            -86400 < r.timestamp.offset_seconds < 86400,
            r.timestamp.subsec_nanos < 2000000000,
    {
        ChannelPowerReading::new_at(now_local())
    }

    /// A summary with the given window-start instant and the inverted
    /// sentinel bounds, ready to fold samples in.
    pub fn new_at(timestamp: Timestamp) -> (r: ChannelPowerReading)
        ensures
            r.min == MAXIMUM_READING,
            r.max == MINIMUM_READING,
            r.timestamp == timestamp,
    {
        ChannelPowerReading { min: MAXIMUM_READING, max: MINIMUM_READING, timestamp }
    }

    /// Folds one successful sample into the envelope: each bound moves
    /// independently, so after the call `min` is the smaller and `max` the
    /// larger of its old value and the sample.
    pub fn add_sample(&mut self, value: i16)
        ensures
            final(self).min == lower_bound(old(self).min, value),
            final(self).max == upper_bound(old(self).max, value),
            final(self).timestamp == old(self).timestamp,
    {
        if value < self.min {
            self.min = value;
        }
        if value > self.max {
            self.max = value;
        }
    }

    /// Whether the summary is still in its empty sentinel state: no sample
    /// was folded in, detected by the deliberately inverted bounds. A silent
    /// degraded result, not an error.
    pub fn is_empty(&self) -> (r: bool)
        ensures
            r == self.is_sentinel(),
    {
        self.min > self.max
    }

    /// The peak-to-peak amplitude `max - min`. For a summary that absorbed at
    /// least one sample this is the observed spread; for one still in the
    /// sentinel state it is the nonsensical negative spread of the inverted
    /// sentinels, which callers detect with [`Self::is_sentinel`].
    pub fn difference(&self) -> (r: i16)
        requires
            i16::MIN <= self.max - self.min <= i16::MAX,
        ensures
            r == self.max - self.min,
    {
        self.max - self.min
    }
}

/// One complete telemetry observation: exactly one envelope per channel, in
/// fixed channel order.
#[derive(Clone, Copy, Debug, PartialEq, Eq, Structural)]
pub struct PowerReading {
    pub a0: ChannelPowerReading,
    pub a1: ChannelPowerReading,
    pub a2: ChannelPowerReading,
    pub a3: ChannelPowerReading,
}

impl PowerReading {
    /// Assembles the four per-channel envelopes, in channel order.
    pub fn new(
        a0: ChannelPowerReading,
        a1: ChannelPowerReading,
        a2: ChannelPowerReading,
        a3: ChannelPowerReading,
    ) -> (r: PowerReading)
        ensures
            r.a0 == a0,
            r.a1 == a1,
            r.a2 == a2,
            r.a3 == a3,
    {
        PowerReading { a0, a1, a2, a3 }
    }
}

} // verus!
