//! The one place where the library reads the wall clock. Every caller takes
//! the returned plain values and does all further work in verified code, so
//! nothing here promises more than chrono's documentation states.

use vstd::prelude::*;

verus! {

/// Relies on chrono's `Local::now().timestamp()`: the current wall-clock
/// time as whole seconds since the Unix epoch. Nothing can be promised of
/// the value itself.
#[verifier::external_body]
pub(crate) fn now_timestamp() -> i64 {
    chrono::Local::now().timestamp()
}

/// The current time as nonnegative seconds since the Unix epoch; a clock
/// that reads before the epoch is treated as the epoch itself.
pub(crate) fn now_seconds() -> u64 {
    let t = now_timestamp();
    if t >= 0 {
        t as u64
    } else {
        0
    }
}

/// Relies on chrono's `Local::now()` together with the `Datelike` and
/// `Timelike` accessors `year`, `ordinal`, `hour`, `minute` and `second`.
/// Their documentation states the ranges: the day of year runs from 1 to
/// 366, the hour from 0 to 23, the minute and the second from 0 to 59.
#[verifier::external_body]
pub(crate) fn now_date_parts() -> (r: (i32, u32, u32, u32, u32))
    ensures
        1 <= r.1 <= 366,
        r.2 < 24,
        r.3 < 60,
        r.4 < 60,
{
    let now = chrono::Local::now();
    (
        chrono::Datelike::year(&now),
        chrono::Datelike::ordinal(&now),
        chrono::Timelike::hour(&now),
        chrono::Timelike::minute(&now),
        chrono::Timelike::second(&now),
    )
}

} // verus!
