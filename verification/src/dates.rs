//! The date formats of the local copy and the parsing of stored dates.
use vstd::prelude::*;
use crate::outside::{chrono_parse, naive_datetime_parse};

verus! {

/// The strftime format of UTC timestamps with milliseconds, such as `2021-01-24 19:06:26.256`;
/// the same as SQLite's `STRFTIME("%Y-%m-%d %H:%M:%f")`.
pub open spec fn date_fmt_3ms() -> Seq<char> {
    "%Y-%m-%d %H:%M:%S.%3f"@
}

/// The strftime format of UTC timestamps in seconds, such as `2021-01-24 19:06:26`; the
/// Stripe API's default.
pub open spec fn date_fmt_secs() -> Seq<char> {
    "%Y-%m-%d %H:%M:%S"@
}

/// The strftime format of UTC timestamps with milliseconds.
pub fn get_date_fmt_3ms() -> (r: &'static str)
    ensures
        r@ == date_fmt_3ms(),
{
    "%Y-%m-%d %H:%M:%S.%3f"
}

fn date_fmt_secs_str() -> (r: &'static str)
    ensures
        r@ == date_fmt_secs(),
{
    "%Y-%m-%d %H:%M:%S"
}

/// A UTC date-time: seconds since the Unix epoch and nanoseconds within the second.
#[derive(Debug, Clone, Copy, PartialEq, Eq, Structural)]
pub struct UtcDateTime {
    pub secs: i64,
    pub nanos: u32,
}

/// Reads a UTC timestamp with milliseconds (`2021-01-24 19:06:26.256`).
pub fn get_utc_dt_from_3ms(s: &String) -> (r: UtcDateTime)
    requires
        chrono_parse(s@, date_fmt_3ms()) is Some,
    ensures
        chrono_parse(s@, date_fmt_3ms()) == Some((r.secs, r.nanos)),
{
    match naive_datetime_parse(s.as_str(), get_date_fmt_3ms()) {
        Some((secs, nanos)) => UtcDateTime { secs, nanos },
        None => {
            assert(false);
            UtcDateTime { secs: 0, nanos: 0 }
        },
    }
}

/// Reads a UTC timestamp in seconds (`2021-01-24 19:06:26`), the Stripe API's default.
pub fn get_utc_dt(s: &String) -> (r: UtcDateTime)
    requires
        chrono_parse(s@, date_fmt_secs()) is Some,
    ensures
        chrono_parse(s@, date_fmt_secs()) == Some((r.secs, r.nanos)),
{
    match naive_datetime_parse(s.as_str(), date_fmt_secs_str()) {
        Some((secs, nanos)) => UtcDateTime { secs, nanos },
        None => {
            assert(false);
            UtcDateTime { secs: 0, nanos: 0 }
        },
    }
}

/// Reads a UTC timestamp with milliseconds; `None` when `s` is not one.
pub fn try_get_utc_dt_from_3ms(s: &String) -> (r: Option<UtcDateTime>)
    ensures
        r is None <==> chrono_parse(s@, date_fmt_3ms()) is None,
        r matches Some(d) ==> chrono_parse(s@, date_fmt_3ms()) == Some((d.secs, d.nanos)),
{
    match naive_datetime_parse(s.as_str(), get_date_fmt_3ms()) {
        Some(_) => Some(get_utc_dt_from_3ms(s)),
        None => None,
    }
}

/// Reads a UTC timestamp in seconds; `None` when `s` is not one.
pub fn try_get_utc_dt(s: &String) -> (r: Option<UtcDateTime>)
    ensures
        r is None <==> chrono_parse(s@, date_fmt_secs()) is None,
        r matches Some(d) ==> chrono_parse(s@, date_fmt_secs()) == Some((d.secs, d.nanos)),
{
    match naive_datetime_parse(s.as_str(), date_fmt_secs_str()) {
        Some(_) => Some(get_utc_dt(s)),
        None => None,
    }
}

} // verus!
