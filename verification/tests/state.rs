use solar_relay::recorder::{runtime_column, sensor_rows, snapshot, SensorRow};
use solar_relay::relay::{RelayController, RelayState};
use solar_relay::sensors::{read_reg, read_sensor, record_poll};
use solar_relay::state::{
    value_for, AppState, AutoState, LiveBuffer, SensorReading, UpsReading, LIVE_BUFFER_CAPACITY,
};

fn reading(address: u8, volts: i64) -> SensorReading {
    SensorReading { address, bus_voltage_v: volts, current_ma: 0 }
}

fn supply(input: Option<i64>, battery: Option<i64>) -> UpsReading {
    let mut ups = UpsReading::default();
    ups.input_voltage_v = input;
    ups.battery_voltage_v = battery;
    ups
}

#[test]
fn the_unit_boots_with_nothing_measured() {
    let app = AppState::new(RelayController::new());
    assert_eq!(app.inner.published_state, RelayState::Open);
    assert!(app.inner.sensors.is_empty());
    assert!(app.inner.ups.is_none());
    assert!(app.db.is_none());
    assert_eq!(app.inner.live.ts.len(), 0);
    let auto = AutoState::default();
    assert!(auto.enabled && !auto.eod_lockout && !auto.solar_lockout && !auto.float_reached_today);
    assert_eq!(auto.last_switch_at, None);
    assert_eq!(auto.low_voltage_minutes, 0);
}

#[test]
fn the_first_sensor_at_an_address_counts() {
    let sensors = [reading(0x41, 1), reading(0x40, 2), reading(0x40, 3)];
    assert_eq!(value_for(&sensors, 0x40), Some(2));
    assert_eq!(value_for(&sensors, 0x41), Some(1));
    assert_eq!(value_for(&sensors, 0x42), None);
    assert_eq!(value_for(&[], 0x40), None);
}

#[test]
fn the_buffer_keeps_the_latest_rows_in_order() {
    let mut live = LiveBuffer::new();
    for ts in 0..1_000 {
        live.push(ts, &[reading(0x40, ts * 2), reading(0x41, ts * 3)], Some(&supply(Some(ts), Some(-ts))));
        let len = (ts as usize + 1).min(LIVE_BUFFER_CAPACITY);
        assert_eq!(live.ts.len(), len);
        assert_eq!(live.sensor_grid_v.len(), len);
        assert_eq!(live.sensor_solar_v.len(), len);
        assert_eq!(live.ups_input_v.len(), len);
        assert_eq!(live.ups_battery_v.len(), len);
    }
    for i in 0..LIVE_BUFFER_CAPACITY {
        let ts = 700 + i as i64;
        assert_eq!(live.ts[i], ts);
        assert_eq!(live.sensor_grid_v[i], Some(ts * 2));
        assert_eq!(live.sensor_solar_v[i], Some(ts * 3));
        assert_eq!(live.ups_input_v[i], Some(ts));
        assert_eq!(live.ups_battery_v[i], Some(-ts));
    }
}

#[test]
fn a_row_has_gaps_where_nothing_was_measured() {
    let mut live = LiveBuffer::new();
    live.push(1, &[reading(0x41, 5)], None);
    live.push(2, &[], Some(&supply(None, Some(4))));
    assert_eq!(live.sensor_grid_v, [None, None]);
    assert_eq!(live.sensor_solar_v, [Some(5), None]);
    assert_eq!(live.ups_input_v, [None, None]);
    assert_eq!(live.ups_battery_v, [None, Some(4)]);
}

#[test]
fn the_voltage_at_rest_is_the_maximum_of_the_window() {
    let mut live = LiveBuffer::new();
    assert_eq!(live.max_battery_voltage_recent(300), None);
    for volts in [30, 10, 25, 20] {
        live.push(0, &[reading(0x40, volts)], None);
    }
    live.push(0, &[], None);
    assert_eq!(live.max_battery_voltage_recent(300), Some(30));
    assert_eq!(live.max_battery_voltage_recent(4), Some(25));
    assert_eq!(live.max_battery_voltage_recent(2), Some(20));
    assert_eq!(live.max_battery_voltage_recent(1), None);
    assert_eq!(live.max_battery_voltage_recent(0), None);
    assert_eq!(live.max_battery_voltage_recent(usize::MAX), Some(30));
}

#[test]
fn registers_are_read_high_byte_first() {
    assert_eq!(read_reg([0x12, 0x34]), 0x1234);
    assert_eq!(read_reg([0xff, 0xff]), 0xffff);
    for raw in 0..=65_535u16 {
        let bytes = raw.to_be_bytes();
        let got = read_sensor(0x41, bytes, bytes);
        assert_eq!(got.address, 0x41);
        let volts = raw as f32 * 0.0016;
        let milliamps = i16::from_be_bytes(bytes) as f32 * 0.3125;
        assert!((got.bus_voltage_v as f64 / 1e6 - volts as f64).abs() < 1e-5);
        assert_eq!(got.current_ma as f64 / 1e6, milliamps as f64);
    }
}

#[test]
fn readings_are_exact() {
    let got = read_sensor(0x40, [0x42, 0x68], [0xff, 0xfe]);
    assert_eq!(got.bus_voltage_v, 27_200_000);
    assert_eq!(got.current_ma, -625_000);
    assert_eq!(read_sensor(0x40, [0xff, 0xff], [0x80, 0x00]).bus_voltage_v, 104_856_000);
    assert_eq!(read_sensor(0x40, [0, 0], [0x80, 0x00]).current_ma, -10_240_000_000);
}

#[test]
fn a_poll_publishes_what_answered() {
    let mut inner = AppState::new(RelayController::new()).inner;
    inner.ups = Some(supply(Some(230), Some(27)));
    record_poll(&mut inner, 1, Some(reading(0x40, 7)), Some(reading(0x41, 8)));
    assert_eq!(inner.sensors, vec![reading(0x40, 7), reading(0x41, 8)]);
    record_poll(&mut inner, 2, None, Some(reading(0x41, 9)));
    assert_eq!(inner.sensors, vec![reading(0x41, 9)]);
    record_poll(&mut inner, 3, None, None);
    assert_eq!(inner.sensors, vec![reading(0x41, 9)]);
    assert_eq!(inner.live.ts, [1, 2, 3]);
    assert_eq!(inner.live.sensor_grid_v, [Some(7), None, None]);
    assert_eq!(inner.live.sensor_solar_v, [Some(8), Some(9), None]);
    assert_eq!(inner.live.ups_input_v, [Some(230), Some(230), Some(230)]);
    assert_eq!(inner.live.ups_battery_v, [Some(27), Some(27), Some(27)]);
}

#[test]
fn a_snapshot_takes_what_is_published() {
    let mut inner = AppState::new(RelayController::new()).inner;
    let empty = snapshot(&inner);
    assert!(empty.sensors.is_empty() && empty.ups.is_none());
    let mut ups = supply(Some(1), None);
    ups.status = Some("OL".to_string());
    inner.ups = Some(ups);
    inner.sensors = vec![reading(0xff, 3)];
    let taken = snapshot(&inner);
    assert_eq!(taken.sensors, vec![SensorRow { address: 255, bus_v: 3, current_ma: 0 }]);
    let stored = taken.ups.unwrap();
    assert_eq!(stored.input_voltage_v, Some(1));
    assert_eq!(stored.status.as_deref(), Some("OL"));
    assert_eq!(sensor_rows(&[]), vec![]);
}

#[test]
fn runtimes_wrap_like_the_column() {
    assert_eq!(runtime_column(None), None);
    for seconds in [0, 1_234, i32::MAX as u32, i32::MAX as u32 + 1, u32::MAX] {
        assert_eq!(runtime_column(Some(seconds)), Some(seconds as i32));
    }
}
