//! Candles (OHLCV bars) in the shape every exchange's kline stream is turned
//! into, and the date check their times go through.
use vstd::prelude::*;

verus! {

/// One candle. Times are milliseconds since the Unix epoch; a time that the
/// date library cannot represent is replaced by the epoch itself (0).
#[derive(Debug, Clone)]
pub struct Candle {
    pub open: String,
    pub high: String,
    pub low: String,
    pub close: String,
    pub volume: String,
    pub exchange: &'static str,
    pub time: i64,
    pub close_time: i64,
    pub coin: String,
}

/// The first instant `chrono` can represent, in milliseconds since the Unix
/// epoch: the start of January 1 of the year -262143.
pub const MIN_CHRONO_MILLIS: i64 = -8_334_601_228_800_000;

/// The last instant `chrono` can represent, in milliseconds since the Unix
/// epoch: the last millisecond of December 31 of the year 262142.
pub const MAX_CHRONO_MILLIS: i64 = 8_210_266_876_799_999;

/// Whether `chrono` can represent the instant `ms` milliseconds after the
/// Unix epoch: its dates run from January 1 of -262143 to December 31 of
/// 262142.
pub open spec fn millis_in_range(ms: i64) -> bool {
    MIN_CHRONO_MILLIS <= ms <= MAX_CHRONO_MILLIS
}

/// Calls `chrono::DateTime::<Utc>::from_timestamp_millis` and tells whether
/// it gave a date. The source splits `ms` into whole seconds and a
/// sub-second part (always valid), the seconds into days from the epoch, and
/// refuses a day whose year lies outside -262143..=262142; the instants of
/// those days are exactly `MIN_CHRONO_MILLIS..=MAX_CHRONO_MILLIS`.
#[verifier::external_body]
fn chrono_accepts_millis(ms: i64) -> (r: bool)
    ensures
        r == millis_in_range(ms),
{
    chrono::DateTime::<chrono::Utc>::from_timestamp_millis(ms).is_some()
}

/// The time kept for an instant: itself when representable, else the epoch.
pub open spec fn kept_time(ms: i64) -> i64 {
    if millis_in_range(ms) { ms } else { 0 }
}

/// Checks an instant as `kept_time` describes.
pub fn checked_time(ms: i64) -> (r: i64)
    ensures
        r == kept_time(ms),
{
    if chrono_accepts_millis(ms) { ms } else { 0 }
}

} // verus!
