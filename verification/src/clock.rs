//! Local calendar model: instants are Unix milliseconds, local calendar days
//! are counted from the common era (day 1 is 0001-01-01, a Monday), and local
//! times of day are milliseconds from midnight. Timezone resolution itself is
//! delegated to chrono / chrono-tz behind trusted wrappers.

use vstd::prelude::*;
use vstd::arithmetic::div_mod::lemma_mod_multiples_vanish;
use chrono::Datelike;
use chrono::TimeZone;

verus! {

/// Milliseconds in one day.
pub const MILLIS_PER_DAY: i64 = 86_400_000;

/// Every local calendar day handled here stays strictly inside this bound
/// (chrono's own calendar range is much narrower).
pub const DAY_BOUND: i64 = 100_000_000;

/// Every instant handled here stays strictly inside this bound, in Unix
/// milliseconds (chrono's calendar ends around the year 262143, below 10^16).
pub const INSTANT_BOUND: i64 = 10_000_000_000_000_000;

/// Instants that chrono and rrule are asked to construct a date-time from
/// must stay inside this tighter bound, which lies strictly inside chrono's
/// own calendar range on both sides.
pub const SAFE_INSTANT_BOUND: i64 = 8_000_000_000_000_000;

#[derive(Clone, Copy, PartialEq, Eq, Structural, Debug)]
pub enum Weekday {
    Mon,
    Tue,
    Wed,
    Thu,
    Fri,
    Sat,
    Sun,
}

/// Weekday of a day count from the common era, as an index with Monday = 0.
/// Day 1 (0001-01-01) is a Monday in the proleptic Gregorian calendar.
pub open spec fn weekday_index(day: int) -> int {
    (day + 6) % 7
}

pub open spec fn weekday_from_index(i: int) -> Weekday {
    if i == 0 {
        Weekday::Mon
    } else if i == 1 {
        Weekday::Tue
    } else if i == 2 {
        Weekday::Wed
    } else if i == 3 {
        Weekday::Thu
    } else if i == 4 {
        Weekday::Fri
    } else if i == 5 {
        Weekday::Sat
    } else {
        Weekday::Sun
    }
}

pub open spec fn index_of_weekday(w: Weekday) -> int {
    match w {
        Weekday::Mon => 0,
        Weekday::Tue => 1,
        Weekday::Wed => 2,
        Weekday::Thu => 3,
        Weekday::Fri => 4,
        Weekday::Sat => 5,
        Weekday::Sun => 6,
    }
}

/// Weekday index (Monday = 0) of a local calendar day.
pub fn weekday_index_of_day(day: i64) -> (r: i64)
    requires
        -DAY_BOUND < day < DAY_BOUND,
    ensures
        r == weekday_index(day as int),
        0 <= r < 7,
{
    let shifted: i64 = day + 700_000_006;
    let idx: i64 = shifted % 7;
    proof {
        lemma_mod_multiples_vanish(100_000_000, day as int + 6, 7);
    }
    idx
}

/// Weekday of a local calendar day.
pub fn weekday_of_day(day: i64) -> (w: Weekday)
    requires
        -DAY_BOUND < day < DAY_BOUND,
    ensures
        w == weekday_from_index(weekday_index(day as int)),
{
    let idx = weekday_index_of_day(day);
    if idx == 0 {
        Weekday::Mon
    } else if idx == 1 {
        Weekday::Tue
    } else if idx == 2 {
        Weekday::Wed
    } else if idx == 3 {
        Weekday::Thu
    } else if idx == 4 {
        Weekday::Fri
    } else if idx == 5 {
        Weekday::Sat
    } else {
        Weekday::Sun
    }
}

/// The local calendar day (days from the common era) and the local time of day
/// (milliseconds from midnight) of the instant `t` (Unix milliseconds) in the
/// named timezone; `None` when the timezone name does not resolve or `t` lies
/// outside chrono's calendar range. A function of its arguments alone: the
/// timezone tables are compiled into chrono-tz.
pub uninterp spec fn civil_parts(tz: Seq<char>, t: int) -> Option<(int, int)>;

/// The instant (Unix milliseconds) at which the named timezone's local clock
/// shows the given day and time of day; `None` when the timezone name does not
/// resolve, the day lies outside chrono's range, or the local time is skipped
/// or ambiguous (daylight saving transitions). A function of its arguments
/// alone, for the same reason as `civil_parts`.
pub uninterp spec fn local_instant(tz: Seq<char>, day: int, tod: int) -> Option<int>;

/// Relies on chrono's `DateTime::from_timestamp_millis` and timezone
/// conversion through `chrono_tz::Tz`: the local calendar day and millisecond
/// of day of an instant. Instants never carry leap seconds, so the millisecond
/// of day is below `MILLIS_PER_DAY`; chrono's calendar range keeps the day
/// count far inside `DAY_BOUND`. The instant must lie inside
/// `SAFE_INSTANT_BOUND`: near the calendar boundary chrono's conversion to a
/// local date panics when the zone's offset points outward.
#[verifier::external_body]
pub fn utc_to_local(tz: &str, t: i64) -> (r: Option<(i64, i64)>)
    requires
        -SAFE_INSTANT_BOUND < t < SAFE_INSTANT_BOUND,
    ensures
        (r is Some) == (civil_parts(tz@, t as int) is Some),
        r matches Some((day, tod)) ==> {
            &&& civil_parts(tz@, t as int) == Some((day as int, tod as int))
            &&& -DAY_BOUND < day < DAY_BOUND
            &&& 0 <= tod < MILLIS_PER_DAY
        },
{
    let zone: chrono_tz::Tz = match tz.parse() {
        Ok(z) => z,
        Err(_) => return None,
    };
    let utc = chrono::DateTime::<chrono::Utc>::from_timestamp_millis(t)?;
    let local = utc.with_timezone(&zone);
    let day = i64::from(local.date_naive().num_days_from_ce());
    let tod = local.time().signed_duration_since(chrono::NaiveTime::MIN).num_milliseconds();
    Some((day, tod))
}

/// Relies on chrono-tz's `TimeZone::from_local_datetime` (`single`): the
/// instant at which the named timezone's clock shows the given local day and
/// time of day, `None` on an unresolvable zone, an out-of-range day, or a
/// skipped or ambiguous local time. Instants stay inside chrono's calendar
/// range, hence inside `INSTANT_BOUND`.
#[verifier::external_body]
pub fn local_to_utc(tz: &str, day: i64, tod: i64) -> (r: Option<i64>)
    requires
        0 <= tod < MILLIS_PER_DAY,
    ensures
        (r is Some) == (local_instant(tz@, day as int, tod as int) is Some),
        r matches Some(t) ==> {
            &&& local_instant(tz@, day as int, tod as int) == Some(t as int)
            &&& -INSTANT_BOUND < t < INSTANT_BOUND
        },
{
    let zone: chrono_tz::Tz = match tz.parse() {
        Ok(z) => z,
        Err(_) => return None,
    };
    let day32 = match i32::try_from(day) {
        Ok(v) => v,
        Err(_) => return None,
    };
    let date = chrono::NaiveDate::from_num_days_from_ce_opt(day32)?;
    let time = chrono::NaiveTime::MIN + chrono::TimeDelta::milliseconds(tod);
    let local = zone.from_local_datetime(&date.and_time(time)).single()?;
    Some(local.timestamp_millis())
}

/// The query window derived from "now": the current local calendar week, its
/// Monday at local midnight through the following Monday at local midnight.
/// `None` when the timezone does not resolve or a Monday midnight does not
/// exist as a local time.
pub open spec fn week_window_spec(tz: Seq<char>, now: int) -> Option<(int, int)> {
    match civil_parts(tz, now) {
        Some(p) => {
            let monday = p.0 - weekday_index(p.0);
            match local_instant(tz, monday, 0) {
                Some(ws) => match local_instant(tz, monday + 7, 0) {
                    Some(we) => Some((ws, we)),
                    None => None,
                },
                None => None,
            }
        },
        None => None,
    }
}

/// The bounds of the current local calendar week, Monday midnight to the
/// following Monday midnight, as instants in Unix milliseconds. A window that
/// would leave the instant range recurrence expansion supports is refused
/// like an unresolvable one.
pub fn week_window(tz: &str, now: i64) -> (r: Option<(i64, i64)>)
    ensures
        (r is Some) == ({
            &&& -SAFE_INSTANT_BOUND < now < SAFE_INSTANT_BOUND
            &&& week_window_spec(tz@, now as int) matches Some(p)
            &&& -SAFE_INSTANT_BOUND < p.0 < SAFE_INSTANT_BOUND
            &&& -SAFE_INSTANT_BOUND < p.1 < SAFE_INSTANT_BOUND
        }),
        r matches Some((ws, we)) ==> {
            &&& week_window_spec(tz@, now as int) == Some((ws as int, we as int))
            &&& -SAFE_INSTANT_BOUND < ws < SAFE_INSTANT_BOUND
            &&& -SAFE_INSTANT_BOUND < we < SAFE_INSTANT_BOUND
        },
{
    if now <= -SAFE_INSTANT_BOUND || now >= SAFE_INSTANT_BOUND {
        return None;
    }
    let (day, _tod) = match utc_to_local(tz, now) {
        Some(p) => p,
        None => {
            return None;
        }
    };
    let monday = day - weekday_index_of_day(day);
    let ws = match local_to_utc(tz, monday, 0) {
        Some(t) => t,
        None => {
            return None;
        }
    };
    let we = match local_to_utc(tz, monday + 7, 0) {
        Some(t) => t,
        None => {
            return None;
        }
    };
    if -SAFE_INSTANT_BOUND < ws && ws < SAFE_INSTANT_BOUND && -SAFE_INSTANT_BOUND < we && we
        < SAFE_INSTANT_BOUND {
        Some((ws, we))
    } else {
        None
    }
}

} // verus!
