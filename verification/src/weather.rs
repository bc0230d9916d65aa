//! The weather service: what is asked of it, and what its answers mean.

use vstd::prelude::*;
use vstd::string::*;
use chrono::Datelike;

use crate::clock::Instant;
use crate::db::ForecastDay;
use crate::decimal::{rounded, Micro};
use crate::text::{decimal_digits, push_number};

verus! {

/// Seconds between two requests for the current weather.
pub const TICK_CURRENT: u64 = 900;

/// Seconds between two requests for the daily forecast.
pub const TICK_DAILY: u64 = 3_600;

/// Seconds after which a request is given up.
pub const HTTP_TIMEOUT: u64 = 10;

/// The name under which samples of this service are stored.
pub const SOURCE: &'static str = "open-meteo";

// ---------------------------------------------------------------------------
// Requests
// ---------------------------------------------------------------------------
/// The request for the current weather at a place.
pub open spec fn current_request(lat: Seq<char>, lon: Seq<char>) -> Seq<char> {
    "https://api.open-meteo.com/v1/forecast?latitude="@ + lat + "&longitude="@ + lon
        + "&current=temperature_2m,cloud_cover,shortwave_radiation"@
}

/// The request for the daily forecast at a place.
pub open spec fn daily_request(lat: Seq<char>, lon: Seq<char>) -> Seq<char> {
    "https://api.open-meteo.com/v1/forecast?latitude="@ + lat + "&longitude="@ + lon
        + "&daily=sunrise,sunset,shortwave_radiation_sum&forecast_days=3&past_days=1&timezone=auto"@
}

/// The request for the current weather at a place, given in decimal degrees.
pub fn current_url(lat: &str, lon: &str) -> (url: String)
    ensures
        url@ == current_request(lat@, lon@),
{
    let mut url: String = "https://api.open-meteo.com/v1/forecast?latitude=".to_owned();
    url.append(lat);
    url.append("&longitude=");
    url.append(lon);
    url.append("&current=temperature_2m,cloud_cover,shortwave_radiation");
    url
}

/// The request for the daily forecast at a place, given in decimal degrees.
pub fn daily_url(lat: &str, lon: &str) -> (url: String)
    ensures
        url@ == daily_request(lat@, lon@),
{
    let mut url: String = "https://api.open-meteo.com/v1/forecast?latitude=".to_owned();
    url.append(lat);
    url.append("&longitude=");
    url.append(lon);
    url.append(
        "&daily=sunrise,sunset,shortwave_radiation_sum&forecast_days=3&past_days=1&timezone=auto",
    );
    url
}

/// What the outcome of a request gives to tell: only a change does.
#[derive(Debug, Clone, Copy, PartialEq, Eq, Structural)]
pub enum FetchNote {
    Quiet,
    Recovered,
    Failed,
}

/// Whether the last request failed.
#[derive(Debug, Clone, Copy, PartialEq, Eq, Structural)]
pub struct FetchLatch {
    pub last_failed: bool,
}

/// What the outcome of a request gives to tell, after one that failed or not.
pub open spec fn fetch_note(last_failed: bool, succeeded: bool) -> FetchNote {
    if last_failed == !succeeded {
        FetchNote::Quiet
    } else if succeeded {
        FetchNote::Recovered
    } else {
        FetchNote::Failed
    }
}

impl FetchLatch {
    /// No request has failed yet.
    pub fn new() -> (latch: Self)
        ensures
            !latch.last_failed,
    {
        FetchLatch { last_failed: false }
    }

    /// Takes the outcome of a request in.
    pub fn record(&mut self, succeeded: bool) -> (note: FetchNote)
        ensures
            final(self).last_failed == !succeeded,
            note == fetch_note(old(self).last_failed, succeeded),
            note == if succeeded && old(self).last_failed {
                FetchNote::Recovered
            } else if !succeeded && !old(self).last_failed {
                FetchNote::Failed
            } else {
                FetchNote::Quiet
            },
    {
        let failed: bool = self.last_failed;
        self.last_failed = !succeeded;
        if succeeded && failed {
            FetchNote::Recovered
        } else if !succeeded && !failed {
            FetchNote::Failed
        } else {
            FetchNote::Quiet
        }
    }
}

// ---------------------------------------------------------------------------
// Times
// ---------------------------------------------------------------------------
/// What `chrono` reads from a text in RFC 3339: seconds and nanoseconds since
/// 1970, in UTC.
pub uninterp spec fn rfc3339_time(s: Seq<char>) -> Option<(i64, u32)>;

/// What `chrono` reads from a text in a format without a time zone: the seconds
/// and nanoseconds since 1970 that it would be in UTC, and its month counted from
/// zero.
pub uninterp spec fn local_time(s: Seq<char>, format: Seq<char>) -> Option<(i64, u32, u32)>;

/// What `chrono` reads from a text that writes a date: the number of the day,
/// 0001-01-01 being day 1.
pub uninterp spec fn calendar_day(s: Seq<char>, format: Seq<char>) -> Option<i32>;

/// `chrono::DateTime::parse_from_rfc3339`, then the timestamp of its result in
/// UTC. What it reads depends on the text alone. Its years stay within 262143 of
/// year 0, hence the bound on the seconds; within a leap second the nanoseconds
/// reach up to, but not as far as, two seconds.
#[verifier::external_body]
fn parse_rfc3339(s: &str) -> (time: Option<(i64, u32)>)
    ensures
        time == rfc3339_time(s@),
        time matches Some((secs, nanos)) ==> -9_000_000_000_000 < secs < 9_000_000_000_000 && nanos
            < 2_000_000_000,
{
    match chrono::DateTime::parse_from_rfc3339(s) {
        Ok(dt) => Some((dt.timestamp(), dt.timestamp_subsec_nanos())),
        Err(_) => None,
    }
}

/// `chrono::NaiveDateTime::parse_from_str`, and the parts of its result: its
/// timestamp as if in UTC and its month. What it reads depends on the text and the
/// format alone. The two formats are those whose fields it reads without overflow,
/// whatever the text. Months count from 0 to 11; the bounds on the time are those of
/// `parse_rfc3339`.
#[verifier::external_body]
fn parse_local(s: &str, format: &str) -> (time: Option<(i64, u32, u32)>)
    requires
        format@ == "%Y-%m-%dT%H:%M"@ || format@ == "%Y-%m-%dT%H:%M:%S"@,
    ensures
        time == local_time(s@, format@),
        time matches Some((secs, nanos, month0)) ==> -9_000_000_000_000 < secs < 9_000_000_000_000
            && nanos < 2_000_000_000 && month0 < 12,
{
    match chrono::NaiveDateTime::parse_from_str(s, format) {
        Ok(naive) => Some(
            (
                naive.and_utc().timestamp(),
                naive.and_utc().timestamp_subsec_nanos(),
                naive.date().month0(),
            ),
        ),
        Err(_) => None,
    }
}

/// `chrono::NaiveDate::parse_from_str`, and the number of the day that it reads,
/// `num_days_from_ce`. What it reads depends on the text and the format alone. The
/// format is one whose fields it reads without overflow, whatever the text.
#[verifier::external_body]
fn parse_date(s: &str, format: &str) -> (day: Option<i32>)
    requires
        format@ == "%Y-%m-%d"@,
    ensures
        day == calendar_day(s@, format@),
{
    match chrono::NaiveDate::parse_from_str(s, format) {
        Ok(date) => Some(date.num_days_from_ce()),
        Err(_) => None,
    }
}

/// Hours that the clocks in Brussels are ahead of UTC, by the month alone: two
/// from April to September, else one.
pub open spec fn hours_ahead(month0: u32) -> int {
    if 4 <= month0 + 1 <= 9 {
        2
    } else {
        1
    }
}

/// The point in time that a local time stands for.
pub open spec fn local_instant(secs: i64, nanos: u32, month0: u32) -> Instant {
    Instant { secs, nanos }.spec_earlier_by((hours_ahead(month0) * 3_600) as i64)
}

/// The first of the readings of a time that there is: with a time zone, local to
/// the minute, local to the second.
pub open spec fn first_reading(
    zoned: Option<(i64, u32)>,
    to_minutes: Option<(i64, u32, u32)>,
    to_seconds: Option<(i64, u32, u32)>,
) -> Option<Instant> {
    match (zoned, to_minutes, to_seconds) {
        (Some((secs, nanos)), _, _) => Some(Instant { secs, nanos }),
        (None, Some((secs, nanos, month0)), _) => Some(local_instant(secs, nanos, month0)),
        (None, None, Some((secs, nanos, month0))) => Some(local_instant(secs, nanos, month0)),
        (None, None, None) => None,
    }
}

/// The point in time that a local time in Brussels stands for.
pub fn local_to_utc(secs: i64, nanos: u32, month0: u32) -> (instant: Instant)
    ensures
        instant == local_instant(secs, nanos, month0),
{
    let hours: i64 = if 3 <= month0 && month0 <= 8 {
        2
    } else {
        1
    };
    Instant { secs, nanos }.earlier_by(hours * 3_600)
}

/// Picks the first reading of a time that there is.
pub fn pick_reading(
    zoned: Option<(i64, u32)>,
    to_minutes: Option<(i64, u32, u32)>,
    to_seconds: Option<(i64, u32, u32)>,
) -> (instant: Option<Instant>)
    ensures
        instant == first_reading(zoned, to_minutes, to_seconds),
{
    if let Some((secs, nanos)) = zoned {
        return Some(Instant { secs, nanos });
    }
    if let Some((secs, nanos, month0)) = to_minutes {
        return Some(local_to_utc(secs, nanos, month0));
    }
    if let Some((secs, nanos, month0)) = to_seconds {
        return Some(local_to_utc(secs, nanos, month0));
    }
    None
}

/// What a time of the service stands for.
pub open spec fn service_time(s: Seq<char>) -> Option<Instant> {
    first_reading(
        rfc3339_time(s),
        local_time(s, "%Y-%m-%dT%H:%M"@),
        local_time(s, "%Y-%m-%dT%H:%M:%S"@),
    )
}

/// Reads a time of the service, such as `2026-04-27T06:48`. The service leaves
/// the time zone out, so that a time without one is taken as Brussels time; the
/// clocks are taken to change with the month.
pub fn parse_local_iso(s: &str) -> (instant: Option<Instant>)
    ensures
        instant == service_time(s@),
{
    let zoned: Option<(i64, u32)> = parse_rfc3339(s);
    let to_minutes: Option<(i64, u32, u32)> = parse_local(s, "%Y-%m-%dT%H:%M");
    let to_seconds: Option<(i64, u32, u32)> = parse_local(s, "%Y-%m-%dT%H:%M:%S");
    pick_reading(zoned, to_minutes, to_seconds)
}

// ---------------------------------------------------------------------------
// The daily forecast
// ---------------------------------------------------------------------------
/// The daily forecast as the service sends it: a column per quantity, an entry
/// per day.
#[derive(Debug)]
pub struct OpenMeteoDaily {
    pub time: Vec<String>,
    pub sunrise: Vec<Option<String>>,
    pub sunset: Vec<Option<String>>,
    /// Irradiation over the day, in millionths of a MJ/m2.
    pub shortwave_radiation_sum: Vec<Option<Micro>>,
}

/// The columns of a forecast differ in length.
#[derive(Debug, Clone, Copy, PartialEq, Eq, Structural)]
pub struct RaggedForecast {
    pub time: usize,
    pub sunrise: usize,
    pub sunset: usize,
    pub sum: usize,
}

impl RaggedForecast {
    /// The sentence that describes this error.
    pub open spec fn spec_message(self) -> Seq<char> {
        "tailles daily incohérentes: time="@ + decimal_digits(self.time as nat) + ", sunrise="@
            + decimal_digits(self.sunrise as nat) + ", sunset="@ + decimal_digits(
            self.sunset as nat,
        ) + ", sum="@ + decimal_digits(self.sum as nat)
    }

    /// The sentence that describes this error.
    pub fn message(&self) -> (message: String)
        ensures
            message@ == self.spec_message(),
    {
        let mut out: String = "tailles daily incohérentes: time=".to_owned();
        push_number(&mut out, self.time as u64);
        out.append(", sunrise=");
        push_number(&mut out, self.sunrise as u64);
        out.append(", sunset=");
        push_number(&mut out, self.sunset as u64);
        out.append(", sum=");
        push_number(&mut out, self.sum as u64);
        out
    }
}

/// An irradiation in MJ/m2 as kWh/m2, of which one is 3.6 of the other, rounded to
/// the nearest millionth.
pub open spec fn as_kwh(mj: int) -> int {
    if mj < 0 {
        -(rounded(((-mj) * 5) as nat, 18) as int)
    } else {
        rounded((mj * 5) as nat, 18) as int
    }
}

/// An irradiation in MJ/m2 as kWh/m2.
pub fn mj_to_kwh(mj: Micro) -> (kwh: Micro)
    ensures
        kwh == as_kwh(mj as int),
{
    let size: u128 = if mj < 0 {
        (-(mj as i128)) as u128 * 5
    } else {
        mj as u128 * 5
    };
    let quotient: u128 = size / 18;
    let rest: u128 = size % 18;
    let nearest: u128 = if 2 * rest > 18 || (2 * rest == 18 && quotient % 2 == 1) {
        quotient + 1
    } else {
        quotient
    };
    if mj < 0 {
        -(nearest as i64)
    } else {
        nearest as i64
    }
}

/// The row that one day of the forecast makes; none where its date cannot be read.
pub open spec fn row_of(
    day: Option<i32>,
    sunrise: Option<Instant>,
    sunset: Option<Instant>,
    sum_mj: Option<Micro>,
) -> Option<ForecastDay> {
    match day {
        Some(date) => Some(
            ForecastDay {
                date,
                sunrise,
                sunset,
                shortwave_sum_kwh: match sum_mj {
                    Some(mj) => Some(as_kwh(mj as int) as i64),
                    None => None,
                },
            },
        ),
        None => None,
    }
}

/// Makes the row of one day.
pub fn make_row(
    day: Option<i32>,
    sunrise: Option<Instant>,
    sunset: Option<Instant>,
    sum_mj: Option<Micro>,
) -> (row: Option<ForecastDay>)
    ensures
        row == row_of(day, sunrise, sunset, sum_mj),
{
    match day {
        Some(date) => {
            let shortwave_sum_kwh: Option<Micro> = match sum_mj {
                Some(mj) => Some(mj_to_kwh(mj)),
                None => None,
            };
            Some(ForecastDay { date, sunrise, sunset, shortwave_sum_kwh })
        },
        None => None,
    }
}

/// What an entry of a column of times stands for.
pub open spec fn entry_time(entry: Option<String>) -> Option<Instant> {
    match entry {
        Some(text) => service_time(text@),
        None => None,
    }
}

/// Reads an entry of a column of times.
fn read_entry(entry: &Option<String>) -> (instant: Option<Instant>)
    ensures
        instant == entry_time(*entry),
{
    match entry {
        Some(text) => parse_local_iso(text.as_str()),
        None => None,
    }
}

impl OpenMeteoDaily {
    /// The columns have the same length.
    pub open spec fn is_even(&self) -> bool {
        &&& self.sunrise@.len() == self.time@.len()
        &&& self.sunset@.len() == self.time@.len()
        &&& self.shortwave_radiation_sum@.len() == self.time@.len()
    }

    /// The row of the day at `i`.
    pub open spec fn row_at(&self, i: int) -> Option<ForecastDay> {
        row_of(
            calendar_day(self.time@[i]@, "%Y-%m-%d"@),
            entry_time(self.sunrise@[i]),
            entry_time(self.sunset@[i]),
            self.shortwave_radiation_sum@[i],
        )
    }

    /// The rows of the first `n` days, in order.
    pub open spec fn rows_of_first(&self, n: int) -> Seq<ForecastDay>
        decreases n,
    {
        if n <= 0 {
            Seq::empty()
        } else {
            match self.row_at(n - 1) {
                Some(row) => self.rows_of_first(n - 1).push(row),
                None => self.rows_of_first(n - 1),
            }
        }
    }

    /// The rows that the forecast makes, in order. A day whose date cannot be
    /// read is left out; columns of different lengths make none.
    pub fn rows(&self) -> (rows: Result<Vec<ForecastDay>, RaggedForecast>)
        ensures
            match rows {
                Ok(rows) => self.is_even() && rows@ == self.rows_of_first(self.time@.len() as int),
                Err(lengths) => !self.is_even() && lengths.time == self.time@.len()
                    && lengths.sunrise == self.sunrise@.len() && lengths.sunset
                    == self.sunset@.len() && lengths.sum == self.shortwave_radiation_sum@.len(),
            },
    {
        let n: usize = self.time.len();
        if self.sunrise.len() != n || self.sunset.len() != n || self.shortwave_radiation_sum.len()
            != n {
            return Err(
                RaggedForecast {
                    time: n,
                    sunrise: self.sunrise.len(),
                    sunset: self.sunset.len(),
                    sum: self.shortwave_radiation_sum.len(),
                },
            );
        }
        let mut rows: Vec<ForecastDay> = Vec::new();
        let mut i: usize = 0;
        while i < n
            invariant
                i <= n,
                n == self.time@.len(),
                self.is_even(),
                rows@ == self.rows_of_first(i as int),
            decreases n - i,
        {
            let day: Option<i32> = parse_date(self.time[i].as_str(), "%Y-%m-%d");
            let sunrise: Option<Instant> = read_entry(&self.sunrise[i]);
            let sunset: Option<Instant> = read_entry(&self.sunset[i]);
            if let Some(row) = make_row(day, sunrise, sunset, self.shortwave_radiation_sum[i]) {
                rows.push(row);
            }
            i = i + 1;
        }
        Ok(rows)
    }
}

/// A forecast whose dates can all be read makes a row per day, in the order of the
/// days.
pub proof fn law_readable_forecast_is_complete(daily: OpenMeteoDaily, n: int)
    requires
        0 <= n <= daily.time@.len(),
        forall|i: int|
            0 <= i < n ==> calendar_day((#[trigger] daily.time@[i])@, "%Y-%m-%d"@) is Some,
    ensures
        daily.rows_of_first(n).len() == n,
        forall|i: int| 0 <= i < n ==> Some(#[trigger] daily.rows_of_first(n)[i]) == daily.row_at(i),
    decreases n,
{
    if n > 0 {
        law_readable_forecast_is_complete(daily, n - 1);
        assert(calendar_day(daily.time@[n - 1]@, "%Y-%m-%d"@) is Some);
    }
}

} // verus!
