use solar_relay::auto::Action;
use solar_relay::clock::Instant;
use solar_relay::db::{enabled_at_boot, get_setting_bool, set_setting_bool, Db, DbStep};
use solar_relay::history::{history_payload, history_query, HistoryRow, Range};
use solar_relay::relay::{RelayController, RelayError, RelayState};
use solar_relay::routes::{
    finish_post_switch, get_history, get_live_history, get_status, history_failed, manual_event, post_switch, HistoryQuery,
};
use solar_relay::state::{AppState, Network, SensorReading, UpsReading, LIVE_BUFFER_CAPACITY};
use solar_relay::tick::tick_once;

fn connected() -> Db {
    let mut db = Db::new();
    db.set_connected(true);
    db
}

fn query(range: Option<&str>) -> HistoryQuery {
    HistoryQuery { range: range.map(|s| s.to_string()) }
}

#[test]
fn the_status_tells_what_is_published() {
    let mut inner = AppState::new(RelayController::new()).inner;
    inner.published_state = RelayState::Solar;
    let reading = SensorReading { address: 0x40, bus_voltage_v: 1, current_ma: 2 };
    inner.sensors = vec![reading];
    let status = get_status(&inner, true, None);
    assert_eq!(status.relay_state, RelayState::Solar);
    assert!(status.switching && !status.db_connected && status.ups.is_none());
    assert_eq!(status.sensors, vec![reading]);
    let mut ups = UpsReading::default();
    ups.status = Some("OB".to_string());
    inner.ups = Some(ups);
    let status = get_status(&inner, false, Some(&connected()));
    assert!(!status.switching && status.db_connected);
    assert_eq!(status.ups.unwrap().status.as_deref(), Some("OB"));
    assert!(!get_status(&inner, false, Some(&Db::new())).db_connected);
}

#[test]
fn the_live_history_lists_the_columns() {
    let mut inner = AppState::new(RelayController::new()).inner;
    for ts in 0..301 {
        inner.live.push(ts, &[SensorReading { address: 0x41, bus_voltage_v: ts, current_ma: 0 }], None);
    }
    let live = get_live_history(&inner.live);
    assert_eq!(live.capacity, LIVE_BUFFER_CAPACITY);
    assert_eq!(live.ts, (1..301).collect::<Vec<i64>>());
    assert_eq!(live.sensor_grid_v, vec![None; 300]);
    assert_eq!(live.sensor_solar_v[299], Some(300));
    assert_eq!(live.ups_input_v.len(), 300);
    assert_eq!(live.ups_battery_v.len(), 300);
}

#[test]
fn a_second_switch_is_refused() {
    let reply = post_switch(None).unwrap_err();
    assert_eq!((reply.status, reply.text.as_str()), (409, "switch déjà en cours"));
}

#[test]
fn a_switch_by_hand_toggles() {
    let mut relay = RelayController::new();
    let run = post_switch(Some(&mut relay)).unwrap();
    assert_eq!((run.target, run.settle), (Network::Grid, 2_000));
}

#[test]
fn a_switch_by_hand_is_answered_and_kept() {
    let mut inner = AppState::new(RelayController::new()).inner;
    inner.published_state = RelayState::Grid;
    let relay = RelayController::new();
    let now = Instant { secs: 1_000, nanos: 0 };
    let reply = finish_post_switch(&mut inner, now, &relay, Ok(()));
    assert_eq!((reply.status, reply.text.as_str()), (202, ""));
    assert_eq!(inner.published_state, RelayState::Open);
    assert_eq!(inner.auto.last_switch_at, Some(now));
    assert_eq!(inner.auto.manual_override_until, Some(Instant { secs: 1_600, nanos: 0 }));
    let later = Instant { secs: 2_000, nanos: 0 };
    let error = RelayError::BothClosed { grid_low: true, solar_low: true };
    let reply = finish_post_switch(&mut inner, later, &relay, Err(error));
    let event = manual_event(&relay, Ok(())).unwrap();
    assert_eq!((event.state, event.reason.as_str()), ("open", "manual"));
    assert!(manual_event(&relay, Err(error)).is_none());
    assert_eq!((reply.status, reply.text), (500, error.message()));
    assert_eq!(inner.auto.last_switch_at, Some(later));
}

#[test]
fn points_in_time_move() {
    let instant = Instant { secs: 10, nanos: 3 };
    assert_eq!(instant.later_by(5), Instant { secs: 15, nanos: 3 });
    assert_eq!(instant.earlier_by(20), Instant { secs: -10, nanos: 3 });
    let leap = Instant { secs: 59, nanos: 1_300_000_000 };
    assert_eq!(leap.earlier_by(10), Instant { secs: 50, nanos: 300_000_000 });
    assert_eq!(Instant { secs: i64::MAX - 1, nanos: 0 }.later_by(5).secs, i64::MAX);
    assert_eq!(Instant { secs: i64::MIN + 4, nanos: 2 }.earlier_by(5), Instant { secs: i64::MIN, nanos: 2 });
    assert_eq!(leap.later_by(10), Instant { secs: 69, nanos: 300_000_000 });
}

#[test]
fn the_choice_by_hand_stands_for_ten_minutes() {
    let mut inner = AppState::new(RelayController::new()).inner;
    inner.sensors = vec![SensorReading { address: 0x40, bus_voltage_v: 25_000_000, current_ma: 0 }];
    inner.auto.low_voltage_minutes = 50;
    let mut seen = None;
    finish_post_switch(&mut inner, Instant { secs: 0, nanos: 5 }, &RelayController::new(), Ok(()));
    let mut tick = |secs: i64, nanos: u32| tick_once(&mut inner, &mut seen, Instant { secs, nanos }, &[], None).action;
    assert_eq!(tick(60, 0), Action::Hold);
    assert_eq!(tick(600, 4), Action::Hold);
    assert_eq!(tick(600, 5), Action::SwitchToGrid);
}

#[test]
fn the_history_needs_the_database() {
    let reply = get_history(None, &query(None)).unwrap_err();
    assert_eq!((reply.status, reply.text.as_str()), (503, "DB non configurée"));
    let reply = get_history(Some(&Db::new()), &query(None)).unwrap_err();
    assert_eq!((reply.status, reply.text.as_str()), (503, "DB déconnectée — réessayer plus tard"));
    let reply = history_failed("pool timed out");
    assert_eq!((reply.status, reply.text.as_str()), (500, "Erreur DB: pool timed out"));
}

#[test]
fn the_history_defaults_to_an_hour() {
    let db = connected();
    for (asked, range) in [
        (None, Range::Hour),
        (Some("year"), Range::Hour),
        (Some(""), Range::Hour),
        (Some("Day"), Range::Hour),
        (Some("hour"), Range::Hour),
        (Some("day"), Range::Day),
        (Some("week"), Range::Week),
        (Some("month"), Range::Month),
    ] {
        assert_eq!(get_history(Some(&db), &query(asked)).unwrap(), range);
    }
}

#[test]
fn windows_have_names_and_bounds() {
    let all = [
        (Range::Hour, "hour", "1 hour", "1 minute"),
        (Range::Day, "day", "1 day", "5 minutes"),
        (Range::Week, "week", "7 days", "1 hour"),
        (Range::Month, "month", "30 days", "6 hours"),
    ];
    for (range, name, window, bucket) in all {
        assert_eq!(Range::from_str(name), Ok(range));
        assert_eq!(range.name(), name);
        assert_eq!(range.bounds(), (window, bucket));
        let sql = history_query(range);
        assert!(sql.contains(&format!("now() - INTERVAL '{window}' AS since,\n        INTERVAL '{bucket}' AS bsize\n")));
        assert!(sql.starts_with("\nWITH params AS (\n    SELECT\n        now() - INTERVAL '"));
        assert!(sql.ends_with("LEFT JOIN w   ON w.b   = axis.ts\nORDER BY axis.ts\n"));
        assert!(sql.contains("address = 64") && sql.contains("address = 65"));
    }
    assert_eq!(Range::from_str("Hour"), Err(()));
}

#[test]
fn rows_of_the_history_become_columns() {
    let row = |ts: i64| HistoryRow {
        ts,
        sensor_grid_v: Some(ts + 1),
        sensor_grid_ma: Some(ts + 2),
        sensor_solar_v: Some(ts + 3),
        sensor_solar_ma: Some(ts + 4),
        ups_input_v: Some(ts + 5),
        ups_battery_v: Some(ts + 6),
        weather_temp_c: Some(ts + 7),
        weather_cloud_pct: None,
        weather_radiation: Some(ts + 9),
    };
    let payload = history_payload(Range::Week, &[row(0), row(100)]);
    assert_eq!((payload.range, payload.bucket), ("week", "1 hour"));
    assert_eq!(payload.ts, vec![0, 100]);
    assert!(payload.ts.windows(2).all(|pair| pair[0] < pair[1]));
    assert_eq!(Range::from_str(payload.range), Ok(Range::Week));
    assert_eq!(payload.sensor_grid_v, vec![Some(1), Some(101)]);
    assert_eq!(payload.sensor_grid_ma, vec![Some(2), Some(102)]);
    assert_eq!(payload.sensor_solar_v, vec![Some(3), Some(103)]);
    assert_eq!(payload.sensor_solar_ma, vec![Some(4), Some(104)]);
    assert_eq!(payload.ups_input_v, vec![Some(5), Some(105)]);
    assert_eq!(payload.ups_battery_v, vec![Some(6), Some(106)]);
    assert_eq!(payload.weather_temp_c, vec![Some(7), Some(107)]);
    assert_eq!(payload.weather_cloud_pct, vec![None, None]);
    assert_eq!(payload.weather_radiation, vec![Some(9), Some(109)]);
    assert!(history_payload(Range::Hour, &[]).ts.is_empty());
}

#[test]
fn the_database_is_reached_step_by_step() {
    let mut db = Db::new();
    assert!(!db.is_connected());
    assert_eq!(db.after_ping(false), DbStep::Done { connected: false, changed: false });
    assert_eq!(db.after_ping(true), DbStep::Migrate);
    assert!(!db.is_connected());
    assert_eq!(db.after_migration(false), DbStep::Done { connected: false, changed: false });
    assert_eq!(db.after_ping(true), DbStep::Migrate);
    assert_eq!(db.after_migration(true), DbStep::Done { connected: true, changed: true });
    assert!(db.is_connected());
    assert_eq!(db.after_ping(false), DbStep::Done { connected: false, changed: true });
    assert_eq!(db.after_ping(true), DbStep::Done { connected: true, changed: true });
    assert_eq!(db.after_ping(true), DbStep::Done { connected: true, changed: false });
}

#[test]
fn settings_survive_storage() {
    for default in [false, true] {
        for value in [false, true] {
            assert_eq!(get_setting_bool(Some(set_setting_bool(value)), default), value);
        }
        assert!(get_setting_bool(Some("1"), default));
        assert!(!get_setting_bool(Some("0"), default));
        assert_eq!(get_setting_bool(Some("TRUE"), default), default);
        assert_eq!(get_setting_bool(Some(""), default), default);
        assert_eq!(get_setting_bool(None, default), default);
    }
    assert!(enabled_at_boot(false, Some("false")));
    assert!(!enabled_at_boot(true, Some("false")));
    assert!(enabled_at_boot(true, None));
}
