use chrono::{DateTime, Datelike, NaiveDate, Utc};
use solar_relay::clock::Instant;
use solar_relay::weather::{
    current_url, daily_url, local_to_utc, make_row, mj_to_kwh, parse_local_iso, pick_reading, FetchLatch, FetchNote,
    OpenMeteoDaily, RaggedForecast,
};

fn utc(s: &str) -> DateTime<Utc> {
    let instant = parse_local_iso(s).unwrap();
    DateTime::from_timestamp(instant.secs, instant.nanos).unwrap()
}

#[test]
fn parse_iso_with_offset() {
    let dt = utc("2026-04-27T06:48:00+02:00");
    assert_eq!(dt.to_rfc3339(), "2026-04-27T04:48:00+00:00");
}

#[test]
fn parse_iso_local_summer_brussels() {
    let dt = utc("2026-07-15T20:30");
    assert_eq!(dt.format("%H:%M").to_string(), "18:30");
}

#[test]
fn parse_iso_local_winter_brussels() {
    let dt = utc("2026-12-15T17:00");
    assert_eq!(dt.format("%H:%M").to_string(), "16:00");
}

#[test]
fn parse_iso_local_with_seconds() {
    assert_eq!(utc("2026-03-31T06:48:09").to_rfc3339(), "2026-03-31T05:48:09+00:00");
    assert_eq!(utc("2026-04-01T00:30:00").to_rfc3339(), "2026-03-31T22:30:00+00:00");
    assert_eq!(utc("2026-09-30T23:59").to_rfc3339(), "2026-09-30T21:59:00+00:00");
    assert_eq!(utc("2026-10-01T00:00").to_rfc3339(), "2026-09-30T23:00:00+00:00");
}

#[test]
fn parse_iso_keeps_fractions_and_refuses_the_rest() {
    let instant = parse_local_iso("1970-01-01T00:00:01.25Z").unwrap();
    assert_eq!(instant, Instant { secs: 1, nanos: 250_000_000 });
    assert_eq!(parse_local_iso(""), None);
    assert_eq!(parse_local_iso("2026-04-27"), None);
    assert_eq!(parse_local_iso("2026-02-30T06:48"), None);
    assert_eq!(parse_local_iso("demain"), None);
}

#[test]
fn local_times_follow_the_month() {
    for month0 in 0..12 {
        let hours = if (3..=8).contains(&month0) { 2 } else { 1 };
        assert_eq!(local_to_utc(10_000, 7, month0), Instant { secs: 10_000 - hours * 3_600, nanos: 7 });
    }
}

#[test]
fn local_times_leave_a_leap_second() {
    assert_eq!(utc("2026-06-30T23:59:60").to_rfc3339(), "2026-06-30T22:00:00+00:00");
    assert_eq!(local_to_utc(10_000, 1_500_000_000, 0), Instant { secs: 6_401, nanos: 500_000_000 });
    // With a time zone there is nothing to take off, and the leap second stays.
    let zoned = parse_local_iso("2026-06-30T23:59:60Z").unwrap();
    assert_eq!(zoned.nanos, 1_000_000_000);
}

#[test]
fn points_in_time_agree_with_chrono() {
    let mut times = Vec::new();
    for secs in [-86_401, -1, 0, 59, 60, 3_599, 43_200, 86_399, 86_400, 86_459, 172_799, 1_777_000_000] {
        for nanos in [0, 1, 999_999_999, 1_000_000_000, 1_300_000_000, 1_999_999_999] {
            // Leap seconds only follow the last second of a minute.
            if let Some(time) = DateTime::from_timestamp(secs, nanos) {
                times.push((Instant { secs, nanos }, time));
            }
        }
    }
    assert!(times.iter().any(|(instant, _)| instant.nanos > 1_000_000_000));
    let back = |time: DateTime<Utc>| Instant { secs: time.timestamp(), nanos: time.timestamp_subsec_nanos() };
    for (a, x) in &times {
        for (b, y) in &times {
            assert_eq!(a.not_after(b), x <= y);
            let span = x.signed_duration_since(y).num_nanoseconds().unwrap();
            assert_eq!(a.elapsed_since(b), span as i128, "{x} {y}");
        }
        for secs in [1, 59, 600, 10_800, 86_400] {
            assert_eq!(a.earlier_by(secs), back(*x - chrono::Duration::seconds(secs)));
            assert_eq!(a.later_by(secs), back(*x + chrono::Duration::seconds(secs)));
        }
    }
}

#[test]
fn the_first_reading_counts() {
    let zoned = Some((100, 1));
    let minutes = Some((20_000, 2, 0));
    let seconds = Some((30_000, 3, 6));
    assert_eq!(pick_reading(zoned, minutes, seconds), Some(Instant { secs: 100, nanos: 1 }));
    assert_eq!(pick_reading(None, minutes, seconds), Some(Instant { secs: 16_400, nanos: 2 }));
    assert_eq!(pick_reading(None, None, seconds), Some(Instant { secs: 22_800, nanos: 3 }));
    assert_eq!(pick_reading(None, None, None), None);
}

#[test]
fn megajoules_become_kilowatt_hours() {
    assert_eq!(mj_to_kwh(3_600_000), 1_000_000);
    assert_eq!(mj_to_kwh(18_000_000), 5_000_000);
    assert_eq!(mj_to_kwh(1), 0);
    assert_eq!(mj_to_kwh(2), 1);
    assert_eq!(mj_to_kwh(-3_600_000), -1_000_000);
    assert_eq!(mj_to_kwh(i64::MIN), -2_562_047_788_015_215_502);
    for mj in [0.0f32, 3.6, 12.34, 27.91] {
        let fixed = mj_to_kwh((mj as f64 * 1e6).round() as i64) as f64 / 1e6;
        assert!((fixed - (mj / 3.6) as f64).abs() < 1e-5);
    }
}

fn texts(items: &[&str]) -> Vec<String> {
    items.iter().map(|s| s.to_string()).collect()
}

fn some_texts(items: &[Option<&str>]) -> Vec<Option<String>> {
    items.iter().map(|s| s.map(|s| s.to_string())).collect()
}

#[test]
fn forecast_rows_in_order() {
    let daily = OpenMeteoDaily {
        time: texts(&["2026-04-26", "illisible", "2026-04-28"]),
        sunrise: some_texts(&[Some("2026-04-26T06:20"), Some("2026-04-27T06:18"), Some("pas une heure")]),
        sunset: some_texts(&[Some("2026-04-26T20:55"), None, None]),
        shortwave_radiation_sum: vec![Some(18_000_000), Some(1), None],
    };
    let rows = daily.rows().unwrap();
    assert_eq!(rows.len(), 2);
    let first = NaiveDate::from_ymd_opt(2026, 4, 26).unwrap();
    assert_eq!(rows[0].date, first.num_days_from_ce());
    assert_eq!(rows[0].sunrise, parse_local_iso("2026-04-26T04:20:00Z"));
    assert_eq!(rows[0].sunset, parse_local_iso("2026-04-26T18:55:00Z"));
    assert_eq!(rows[0].shortwave_sum_kwh, Some(5_000_000));
    assert_eq!(rows[1].date, first.num_days_from_ce() + 2);
    assert_eq!(rows[1].sunrise, None);
    assert_eq!(rows[1].sunset, None);
    assert_eq!(rows[1].shortwave_sum_kwh, None);
}

#[test]
fn a_readable_forecast_is_complete() {
    let daily = OpenMeteoDaily {
        time: texts(&["2026-12-31", "2027-01-01"]),
        sunrise: some_texts(&[None, None]),
        sunset: some_texts(&[None, None]),
        shortwave_radiation_sum: vec![None, None],
    };
    let rows = daily.rows().unwrap();
    assert_eq!(rows.len(), 2);
    assert_eq!(rows[1].date, rows[0].date + 1);
}

#[test]
fn ragged_forecast_is_refused() {
    let daily = OpenMeteoDaily {
        time: texts(&["2026-04-26", "2026-04-27"]),
        sunrise: some_texts(&[None]),
        sunset: some_texts(&[None, None]),
        shortwave_radiation_sum: vec![None, None, None],
    };
    let error = daily.rows().unwrap_err();
    assert_eq!(error, RaggedForecast { time: 2, sunrise: 1, sunset: 2, sum: 3 });
    assert_eq!(error.message(), "tailles daily incohérentes: time=2, sunrise=1, sunset=2, sum=3");
}

#[test]
fn a_day_without_a_date_makes_no_row() {
    assert_eq!(make_row(None, None, None, Some(1)), None);
    assert_eq!(make_row(Some(3), None, None, Some(36)).unwrap().shortwave_sum_kwh, Some(10));
}

#[test]
fn requests_name_the_place() {
    assert_eq!(
        current_url("50.85", "4.35"),
        "https://api.open-meteo.com/v1/forecast?latitude=50.85&longitude=4.35\
         &current=temperature_2m,cloud_cover,shortwave_radiation"
    );
    assert_eq!(
        daily_url("50.85", "-4.5"),
        "https://api.open-meteo.com/v1/forecast?latitude=50.85&longitude=-4.5\
         &daily=sunrise,sunset,shortwave_radiation_sum&forecast_days=3&past_days=1&timezone=auto"
    );
}

#[test]
fn only_changes_are_told() {
    let mut latch = FetchLatch::new();
    assert_eq!(latch.record(true), FetchNote::Quiet);
    assert_eq!(latch.record(false), FetchNote::Failed);
    assert_eq!(latch.record(false), FetchNote::Quiet);
    assert_eq!(latch.record(true), FetchNote::Recovered);
    assert_eq!(latch.record(true), FetchNote::Quiet);
}
