//! The wall clock, and times measured from the start of the year 1970.
use std::time::{Duration, SystemTime, SystemTimeError};
use vstd::prelude::*;

verus! {

/// `std::time::SystemTime`, a reading of the wall clock.
#[verifier::external_type_specification]
#[verifier::external_body]
pub struct ExSystemTime(SystemTime);

/// `std::time::SystemTimeError`, given for a time before the one it is measured from.
#[verifier::external_type_specification]
#[verifier::external_body]
pub struct ExSystemTimeError(SystemTimeError);

/// The whole seconds of a span, as `Duration::as_secs` counts them.
pub uninterp spec fn span_seconds(span: Duration) -> u64;

/// The nanoseconds of a span past its whole seconds, as `Duration::subsec_nanos` gives them.
pub uninterp spec fn span_subsec_nanos(span: Duration) -> u32;

/// The span that `SystemTimeError::duration` tells.
pub uninterp spec fn shortfall(error: SystemTimeError) -> Duration;

/// The nanoseconds from the start of 1970 to a reading of the clock, negative for a reading
/// before it, as `SystemTime::duration_since` measures them.
pub uninterp spec fn epoch_offset(reading: SystemTime) -> int;

/// The length of a span in nanoseconds.
pub open spec fn span_nanos(span: Duration) -> int {
    span_seconds(span) * 1_000_000_000 + span_subsec_nanos(span)
}

/// `SystemTime::now` reads the clock; nothing is claimed of the reading.
pub assume_specification[ SystemTime::now ]() -> SystemTime
;

/// `SystemTime::duration_since`, measured from `SystemTime::UNIX_EPOCH`, the start of 1970.
///
/// A reading at or after the start of 1970 gives the span between the two; an earlier one gives
/// an error that tells that span.
#[verifier::external_body]
fn since_epoch(reading: &SystemTime) -> (r: Result<Duration, SystemTimeError>)
    ensures
        match r {
            Ok(span) => epoch_offset(*reading) == span_nanos(span),
            Err(error) => epoch_offset(*reading) < 0 && epoch_offset(*reading) == -span_nanos(
                shortfall(error),
            ),
        },
{
    reading.duration_since(SystemTime::UNIX_EPOCH)
}

/// `Duration::as_millis` counts the whole milliseconds of a span: a thousand for each second,
/// and those in the nanoseconds past the whole seconds.
pub assume_specification[ Duration::as_millis ](this: &Duration) -> (ms: u128)
    ensures
        ms == span_seconds(*this) * 1_000 + span_subsec_nanos(*this) / 1_000_000,
;

/// `Duration::as_secs` counts the whole seconds of a span, which depend on the span alone.
pub assume_specification[ Duration::as_secs ](this: &Duration) -> (seconds: u64)
    ensures
        seconds == span_seconds(*this),
;

/// `Duration::subsec_nanos` gives the nanoseconds past the whole seconds: they depend on the span
/// alone and are less than a second.
pub assume_specification[ Duration::subsec_nanos ](this: &Duration) -> (nanos: u32)
    ensures
        nanos == span_subsec_nanos(*this),
        nanos < 1_000_000_000,
;

/// `SystemTimeError::duration` tells how far a time lies before the one it was measured from: a
/// span that depends on the error alone.
pub assume_specification[ SystemTimeError::duration ](this: &SystemTimeError) -> (span: Duration)
    ensures
        span == shortfall(*this),
;

/// The whole milliseconds from the start of 1970 to a moment, where it is not before it.
pub open spec fn epoch_millis(offset: int) -> Option<u128> {
    if offset < 0 {
        None
    } else {
        Some((offset / 1_000_000) as u128)
    }
}

/// The milliseconds that stand for a reading of the clock: its low 64 bits, or zero for a clock
/// that stands before 1970.
pub open spec fn clock_value(reading: Option<u128>) -> u64 {
    match reading {
        Some(ms) => (ms % 0x1_0000_0000_0000_0000) as u64,
        None => 0,
    }
}

/// The milliseconds that stand for a reading of the system clock.
pub open spec fn read_ms(reading: SystemTime) -> u64 {
    clock_value(epoch_millis(epoch_offset(reading)))
}

/// The milliseconds that stand for a reading of the clock.
pub fn clock_ms(reading: Option<u128>) -> (ms: u64)
    ensures
        ms == clock_value(reading),
{
    match reading {
        Some(ms) => {
            assert(#[verifier::truncate] (ms as u64) == ms % 0x1_0000_0000_0000_0000)
                by (bit_vector);
            #[verifier::truncate]
            (ms as u64)
        },
        None => 0,
    }
}

/// The wall clock in milliseconds since 1970: those of a reading of the clock.
///
/// Which reading it is, is up to the machine's clock.
pub fn now_ms() -> (ms: u64)
    ensures
        exists|reading: SystemTime| ms == #[trigger] read_ms(reading),
{
    let reading = SystemTime::now();
    let ms: u64 = match since_epoch(&reading) {
        Ok(since) => clock_ms(Some(since.as_millis())),
        Err(_) => clock_ms(None),
    };
    assert(ms == read_ms(reading));
    ms
}

/// Nanoseconds in a second.
pub const NANOS_PER_SECOND: u32 = 1_000_000_000;

/// A moment: its distance from the start of 1970, in nanoseconds.
///
/// The whole seconds of it fit in a signed 64-bit number.
#[derive(Clone, Copy, Debug, PartialEq, Eq)]
pub struct Timestamp {
    seconds: i64,
    nanos: u32,
}

impl View for Timestamp {
    type V = int;

    closed spec fn view(&self) -> int {
        self.seconds * 1_000_000_000 + self.nanos
    }
}

/// The moment `seconds` after `at`, where there is one.
pub open spec fn later(at: int, seconds: u64) -> Option<int> {
    if at / 1_000_000_000 + seconds <= i64::MAX {
        Some(at + seconds * 1_000_000_000)
    } else {
        None
    }
}

/// The whole seconds from `earlier` to `at`, where `at` is not before it.
pub open spec fn whole_seconds(at: int, earlier: int) -> Option<int> {
    if earlier <= at {
        Some((at - earlier) / 1_000_000_000)
    } else {
        None
    }
}

/// The moment that stands for a distance from the start of 1970: that distance, or the last or
/// first whole second there is for one too far.
pub open spec fn nearest(offset: int) -> int {
    if offset >= i64::MAX * 1_000_000_000 {
        i64::MAX * 1_000_000_000
    } else if offset <= -(i64::MAX * 1_000_000_000) {
        i64::MIN * 1_000_000_000
    } else {
        offset
    }
}

impl Timestamp {
    #[verifier::type_invariant]
    closed spec fn normal(self) -> bool {
        self.nanos < 1_000_000_000
    }

    /// The moment that many seconds and nanoseconds after the start of 1970.
    pub fn new(seconds: i64, nanos: u32) -> (r: Option<Timestamp>)
        ensures
            match r {
                Some(t) => nanos < 1_000_000_000 && t@ == seconds * 1_000_000_000 + nanos,
                None => nanos >= 1_000_000_000,
            },
    {
        if nanos < NANOS_PER_SECOND {
            Some(Timestamp { seconds, nanos })
        } else {
            None
        }
    }

    /// The start of 1970.
    pub fn epoch() -> (t: Timestamp)
        ensures
            t@ == 0,
    {
        Timestamp { seconds: 0, nanos: 0 }
    }

    /// The seconds of the moment, rounded down.
    pub fn seconds(&self) -> (s: i64)
        ensures
            s == self@ / 1_000_000_000,
    {
        proof {
            use_type_invariant(self);
        }
        self.seconds
    }

    /// The nanoseconds past the whole second.
    pub fn nanos(&self) -> (n: u32)
        ensures
            n == self@ % 1_000_000_000,
    {
        proof {
            use_type_invariant(self);
        }
        self.nanos
    }

    /// The moment that many seconds later, where there is one.
    pub fn checked_add(&self, seconds: u64) -> (r: Option<Timestamp>)
        ensures
            match r {
                Some(t) => later(self@, seconds) == Some(t@),
                None => later(self@, seconds) is None,
            },
    {
        proof {
            use_type_invariant(self);
        }
        match self.seconds.checked_add_unsigned(seconds) {
            Some(sum) => Some(Timestamp { seconds: sum, nanos: self.nanos }),
            None => None,
        }
    }

    /// The whole seconds since an earlier moment.
    pub fn seconds_since(&self, earlier: Timestamp) -> (r: Option<u64>)
        ensures
            match r {
                Some(s) => whole_seconds(self@, earlier@) == Some(s as int),
                None => whole_seconds(self@, earlier@) is None,
            },
    {
        proof {
            use_type_invariant(self);
            use_type_invariant(&earlier);
        }
        let borrow: i128 = if self.nanos < earlier.nanos {
            1
        } else {
            0
        };
        let whole: i128 = self.seconds as i128 - earlier.seconds as i128 - borrow;
        if whole < 0 {
            None
        } else {
            Some(whole as u64)
        }
    }

    /// Whether the moment lies more than some seconds after another.
    pub fn is_past(&self, earlier: Timestamp, seconds: u32) -> (r: bool)
        ensures
            r == (self@ - earlier@ > seconds * 1_000_000_000),
    {
        proof {
            use_type_invariant(self);
            use_type_invariant(&earlier);
        }
        let whole: i128 = self.seconds as i128 - earlier.seconds as i128;
        whole > seconds as i128 || (whole == seconds as i128 && self.nanos > earlier.nanos)
    }

    /// The moment a span before or after the start of 1970, cut off where it would be too far.
    pub fn from_span(seconds: u64, nanos: u32, before: bool) -> (t: Timestamp)
        requires
            nanos < 1_000_000_000,
        ensures
            t@ == (if seconds >= i64::MAX {
                if before {
                    i64::MIN * 1_000_000_000
                } else {
                    i64::MAX * 1_000_000_000
                }
            } else if before {
                -(seconds * 1_000_000_000 + nanos)
            } else {
                seconds * 1_000_000_000 + nanos
            }),
    {
        if seconds >= 0x7fff_ffff_ffff_ffff {
            return Timestamp {
                seconds: if before {
                    i64::MIN
                } else {
                    i64::MAX
                },
                nanos: 0,
            };
        }
        let whole: i64 = seconds as i64;
        if !before {
            Timestamp { seconds: whole, nanos }
        } else if nanos == 0 {
            Timestamp { seconds: -whole, nanos: 0 }
        } else {
            Timestamp { seconds: -whole - 1, nanos: NANOS_PER_SECOND - nanos }
        }
    }

    /// The moment by the wall clock: that of a reading of the clock.
    ///
    /// Which reading it is, is up to the machine's clock.
    pub fn now() -> (t: Timestamp)
        ensures
            exists|reading: SystemTime| t@ == nearest(#[trigger] epoch_offset(reading)),
    {
        let reading = SystemTime::now();
        let t = match since_epoch(&reading) {
            Ok(span) => Timestamp::from_span(span.as_secs(), span.subsec_nanos(), false),
            Err(error) => {
                let span = error.duration();
                Timestamp::from_span(span.as_secs(), span.subsec_nanos(), true)
            },
        };
        assert(t@ == nearest(epoch_offset(reading)));
        t
    }
}

} // verus!
