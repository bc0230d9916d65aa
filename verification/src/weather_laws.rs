//! What the answers of the weather service stand for.

use vstd::prelude::*;

use crate::clock::Instant;
use crate::db::ForecastDay;
use crate::decimal::{rounded, Micro};
use crate::text::decimal_digits;
use crate::weather::{
    as_kwh, calendar_day, current_request, daily_request, entry_time, fetch_note, first_reading,
    hours_ahead, local_instant, local_time, rfc3339_time, row_of, service_time, OpenMeteoDaily,
    RaggedForecast,
};

verus! {

/// A request names the latitude and the longitude as they were given, each in its place.
pub proof fn law_requests_name_the_place(lat: Seq<char>, lon: Seq<char>)
    ensures
        current_request(lat, lon) == "https://api.open-meteo.com/v1/forecast?latitude="@ + lat
            + "&longitude="@ + lon + "&current=temperature_2m,cloud_cover,shortwave_radiation"@,
        daily_request(lat, lon) == "https://api.open-meteo.com/v1/forecast?latitude="@ + lat
            + "&longitude="@ + lon
            + "&daily=sunrise,sunset,shortwave_radiation_sum&forecast_days=3&past_days=1&timezone=auto"@,
{
}

/// A local time is two hours ahead of UTC from April to September and one hour else.
/// Months count from zero.
pub proof fn law_local_times_are_ahead(secs: i64, nanos: u32, month0: u32)
    ensures
        3 <= month0 <= 8 ==> hours_ahead(month0) == 2 && local_instant(secs, nanos, month0) == (
        Instant { secs, nanos }).spec_earlier_by(7_200),
        !(3 <= month0 <= 8) ==> hours_ahead(month0) == 1 && local_instant(secs, nanos, month0) == (
        Instant { secs, nanos }).spec_earlier_by(3_600),
{
}

/// A time with a time zone is taken as it is; one without is taken as local, to the minute
/// before to the second; a time that none of the three can read is none.
pub proof fn law_zoned_times_come_first(s: Seq<char>)
    ensures
        rfc3339_time(s) matches Some((secs, nanos)) ==> service_time(s) == Some(
            Instant { secs, nanos },
        ),
        rfc3339_time(s) is None ==> (local_time(s, "%Y-%m-%dT%H:%M"@) matches Some(
            (secs, nanos, month0),
        ) ==> service_time(s) == Some(local_instant(secs, nanos, month0))),
        rfc3339_time(s) is None && local_time(s, "%Y-%m-%dT%H:%M"@) is None ==> (local_time(
            s,
            "%Y-%m-%dT%H:%M:%S"@,
        ) matches Some((secs, nanos, month0)) ==> service_time(s) == Some(
            local_instant(secs, nanos, month0),
        )),
        service_time(s) is None <==> rfc3339_time(s) is None && local_time(s, "%Y-%m-%dT%H:%M"@)
            is None && local_time(s, "%Y-%m-%dT%H:%M:%S"@) is None,
{
}

/// Of several readings of a time the first that there is counts, and none where there is
/// none.
pub proof fn law_first_reading_counts(
    zoned: Option<(i64, u32)>,
    to_minutes: Option<(i64, u32, u32)>,
    to_seconds: Option<(i64, u32, u32)>,
)
    ensures
        zoned is Some ==> first_reading(zoned, to_minutes, to_seconds) == Some(
            Instant { secs: (zoned->0).0, nanos: (zoned->0).1 },
        ),
        zoned is None && to_minutes is Some ==> first_reading(zoned, to_minutes, to_seconds)
            == Some(local_instant((to_minutes->0).0, (to_minutes->0).1, (to_minutes->0).2)),
        zoned is None && to_minutes is None && to_seconds is Some ==> first_reading(
            zoned,
            to_minutes,
            to_seconds,
        ) == Some(local_instant((to_seconds->0).0, (to_seconds->0).1, (to_seconds->0).2)),
        zoned is None && to_minutes is None && to_seconds is None ==> first_reading(
            zoned,
            to_minutes,
            to_seconds,
        ) is None,
{
}

/// 3.6 MJ are one kWh, to the nearest millionth: 18 times the one is 5 times the other, off
/// by half of 18 at most; where it is off by exactly that, the result is even. More
/// irradiation never becomes less.
pub proof fn law_megajoules_to_kilowatt_hours(mj: int, more: int)
    requires
        mj <= more,
    ensures
        -18 <= 2 * (18 * as_kwh(mj) - 5 * mj) <= 18,
        2 * (18 * as_kwh(mj) - 5 * mj) == 18 || 2 * (18 * as_kwh(mj) - 5 * mj) == -18 ==> as_kwh(mj)
            % 2 == 0,
        as_kwh(-mj) == -as_kwh(mj),
        as_kwh(mj) <= as_kwh(more),
{
    lemma_nearest(mj);
    lemma_nearest(-mj);
    lemma_nearest(more);
}

proof fn lemma_nearest(mj: int)
    ensures
        -9 <= 18 * as_kwh(mj) - 5 * mj <= 9,
        18 * as_kwh(mj) - 5 * mj == 9 || 18 * as_kwh(mj) - 5 * mj == -9 ==> as_kwh(mj) % 2 == 0,
        mj >= 0 ==> as_kwh(-mj) == -as_kwh(mj),
{
    let size = (if mj < 0 {
        -mj
    } else {
        mj
    }) as nat * 5;
    lemma_rounded_by_eighteen(size);
}

proof fn lemma_rounded_by_eighteen(n: nat)
    ensures
        -9 <= 18 * rounded(n, 18) - n <= 9,
        18 * rounded(n, 18) - n == 9 || 18 * rounded(n, 18) - n == -9 ==> rounded(n, 18) % 2 == 0,
        rounded(0, 18) == 0,
{
}

/// A day whose date can be read makes a row with that date, its sunrise and sunset, and its
/// irradiation in kWh; one whose date cannot makes none.
pub proof fn law_row_holds_its_day(
    date: i32,
    sunrise: Option<Instant>,
    sunset: Option<Instant>,
    sum_mj: Option<Micro>,
)
    ensures
        row_of(None, sunrise, sunset, sum_mj) is None,
        row_of(Some(date), sunrise, sunset, sum_mj) is Some,
        row_of(Some(date), sunrise, sunset, sum_mj)->0.date == date,
        row_of(Some(date), sunrise, sunset, sum_mj)->0.sunrise == sunrise,
        row_of(Some(date), sunrise, sunset, sum_mj)->0.sunset == sunset,
        sum_mj is None ==> row_of(Some(date), sunrise, sunset, sum_mj)->0.shortwave_sum_kwh is None,
        sum_mj matches Some(mj) ==> {
            &&& row_of(Some(date), sunrise, sunset, sum_mj)->0.shortwave_sum_kwh is Some
            &&& row_of(Some(date), sunrise, sunset, sum_mj)->0.shortwave_sum_kwh->0 == as_kwh(
                mj as int,
            )
        },
{
    if sum_mj is Some {
        law_megajoules_to_kilowatt_hours(sum_mj->0 as int, sum_mj->0 as int);
    }
}

/// An entry of a column of times stands for the time that it writes, a missing one for
/// none.
pub proof fn law_entry_is_its_time(text: String)
    ensures
        entry_time(Some(text)) == service_time(text@),
        entry_time(None) is None,
{
}

/// The date at `i` can be read.
pub open spec fn is_readable(daily: OpenMeteoDaily, i: int) -> bool {
    calendar_day(daily.time@[i]@, "%Y-%m-%d"@) is Some
}

/// How many of the first `n` dates can be read.
pub open spec fn readable_among(daily: OpenMeteoDaily, n: int) -> nat
    decreases n,
{
    if n <= 0 {
        0
    } else {
        readable_among(daily, n - 1) + (if is_readable(daily, n - 1) {
            1nat
        } else {
            0
        })
    }
}

/// A row holds what the columns say of the day at `i`.
pub open spec fn is_row_of_day(row: ForecastDay, daily: OpenMeteoDaily, i: int) -> bool {
    &&& Some(row.date) == calendar_day(daily.time@[i]@, "%Y-%m-%d"@)
    &&& match daily.sunrise@[i] {
        Some(text) => row.sunrise == service_time(text@),
        None => row.sunrise is None,
    }
    &&& match daily.sunset@[i] {
        Some(text) => row.sunset == service_time(text@),
        None => row.sunset is None,
    }
    &&& match daily.shortwave_radiation_sum@[i] {
        Some(mj) => row.shortwave_sum_kwh is Some && row.shortwave_sum_kwh->0 == as_kwh(mj as int),
        None => row.shortwave_sum_kwh is None,
    }
}

/// A forecast makes one row per readable date and no others: the row of a day stands behind
/// those of the readable days before it and holds that day's own values.
pub proof fn law_every_readable_day_has_its_row(daily: OpenMeteoDaily, n: int)
    requires
        0 <= n,
    ensures
        daily.rows_of_first(n).len() == readable_among(daily, n),
        forall|i: int|
            0 <= i < n && #[trigger] is_readable(daily, i) ==> readable_among(daily, i)
                < daily.rows_of_first(n).len() && is_row_of_day(
                daily.rows_of_first(n)[readable_among(daily, i) as int],
                daily,
                i,
            ),
    decreases n,
{
    if n > 0 {
        law_every_readable_day_has_its_row(daily, n - 1);
        if is_readable(daily, n - 1) {
            law_row_holds_its_day(
                calendar_day(daily.time@[n - 1]@, "%Y-%m-%d"@)->0,
                entry_time(daily.sunrise@[n - 1]),
                entry_time(daily.sunset@[n - 1]),
                daily.shortwave_radiation_sum@[n - 1],
            );
        }
    }
}

/// A forecast whose columns differ in length is refused with all four lengths.
pub proof fn law_ragged_forecast_tells_the_lengths(ragged: RaggedForecast)
    ensures
        ragged.spec_message() == "tailles daily incohérentes: time="@ + decimal_digits(
            ragged.time as nat,
        ) + ", sunrise="@ + decimal_digits(ragged.sunrise as nat) + ", sunset="@ + decimal_digits(
            ragged.sunset as nat,
        ) + ", sum="@ + decimal_digits(ragged.sum as nat),
{
}

/// Only a change is told: a first failure, and the first success after one.
pub proof fn law_only_changes_are_told(last_failed: bool, succeeded: bool)
    ensures
        fetch_note(last_failed, succeeded) is Failed <==> !last_failed && !succeeded,
        fetch_note(last_failed, succeeded) is Recovered <==> last_failed && succeeded,
{
}

} // verus!
