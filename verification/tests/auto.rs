use chrono::{TimeZone, Utc};
use solar_relay::auto::{
    decide, eod_threshold, in_solar_window, is_override_running, is_within, select_today_tomorrow, soc_from_voltage, Action, DecisionInputs,
    CLOUD_HIGH_PCT, RADIATION_LOW_W, V_EMERGENCY, V_FLOAT, V_LOW, V_RECOVER,
};
use solar_relay::clock::Instant;
use solar_relay::db::ForecastDay;
use solar_relay::relay::RelayState;
use solar_relay::state::AutoState;

fn dt(h: i64) -> Instant {
    let time = Utc.with_ymd_and_hms(2026, 4, 27, h.try_into().unwrap(), 0, 0).unwrap();
    Instant { secs: time.timestamp(), nanos: 0 }
}

fn micro(x: f64) -> i64 {
    (x * 1e6).round() as i64
}

fn soc(v: f64) -> f64 {
    soc_from_voltage(micro(v)) as f64 / 1e6
}

fn threshold(kwh: Option<f64>, float_reached: bool) -> f64 {
    eod_threshold(kwh.map(micro), float_reached) as f64 / 1e6
}

fn base_inputs(v_inst: Option<f64>, v_max5: Option<f64>, current: RelayState) -> DecisionInputs {
    DecisionInputs {
        now: dt(12),
        current_relay: current,
        voltage_inst: v_inst.map(micro),
        voltage_max5min: v_max5.map(micro),
        today_sunrise: Some(dt(6)),
        today_sunset: Some(dt(20)),
        tomorrow_radiation_kwh: Some(3_000_000),
        current_cloud_pct: None,
        current_radiation_w: None,
    }
}

#[test]
fn soc_at_table_points() {
    assert!((soc(23.6) - 0.0).abs() < 0.01);
    assert!((soc(24.4) - 30.0).abs() < 0.01);
    assert!((soc(24.8) - 50.0).abs() < 0.01);
    assert!((soc(25.0) - 60.0).abs() < 0.01);
    assert!((soc(25.6) - 75.0).abs() < 0.01);
    assert!((soc(26.4) - 90.0).abs() < 0.01);
    assert!((soc(27.2) - 100.0).abs() < 0.01);
}

#[test]
fn soc_clamped_below_and_above() {
    assert!((soc(20.0) - 0.0).abs() < 0.01);
    assert!((soc(30.0) - 100.0).abs() < 0.01);
}

#[test]
fn soc_interpolated_midpoints() {
    // Halfway between 25.0 V (60 %) and 25.6 V (75 %).
    let s = soc(25.3);
    assert!((s - 67.5).abs() < 0.5);
}

#[test]
fn soc_exact_values_and_order() {
    assert_eq!(soc_from_voltage(25_300_000), 67_500_000);
    assert_eq!(soc_from_voltage(24_000_000), 15_000_000);
    assert_eq!(soc_from_voltage(26_800_000), 95_000_000);
    assert_eq!(soc_from_voltage(23_600_001), 37);
    assert_eq!(soc_from_voltage(i64::MIN), 0);
    assert_eq!(soc_from_voltage(i64::MAX), 100_000_000);
    let mut last = 0;
    for step in 0..4_000 {
        let here = soc_from_voltage(23_500_000 + step * 1_000);
        assert!(here >= last);
        last = here;
    }
}

#[test]
fn soc_agrees_with_floats_on_every_sensor_value() {
    let table: [(f32, f32); 7] =
        [(23.6, 0.0), (24.4, 30.0), (24.8, 50.0), (25.0, 60.0), (25.6, 75.0), (26.4, 90.0), (27.2, 100.0)];
    for raw in 0..=65_535u32 {
        let v = raw as f32 * 0.0016;
        let mut expected: f32 = if v <= 23.6 { 0.0 } else { 100.0 };
        if v > 23.6 && v < 27.2 {
            for pair in table.windows(2) {
                let ((v0, s0), (v1, s1)) = (pair[0], pair[1]);
                if v >= v0 && v <= v1 {
                    expected = s0 + (v - v0) / (v1 - v0) * (s1 - s0);
                    break;
                }
            }
        }
        let got = soc_from_voltage(raw as i64 * 1_600) as f64 / 1e6;
        assert!((got - expected as f64).abs() < 0.001, "{raw}: {got} {expected}");
    }
}

#[test]
fn thresholds_agree_with_floats_on_every_sensor_value() {
    let pairs: [(i64, f32); 8] = [
        (V_EMERGENCY, 24.8),
        (V_LOW, 25.2),
        (V_RECOVER, 26.2),
        (V_FLOAT, 27.2),
        (eod_threshold(Some(4_000_000), true), 26.3),
        (eod_threshold(Some(2_000_000), false), 26.7 + 0.2),
        (eod_threshold(Some(0), false), 27.0 + 0.2),
        (eod_threshold(Some(5_000_000), false), 26.3 + 0.2),
    ];
    for raw in 0..=65_535u32 {
        let fixed = raw as i64 * 1_600;
        let float = raw as f32 * 0.0016;
        for (limit, float_limit) in pairs {
            // A float may lie on either side of a limit that it stands for.
            if fixed == limit {
                continue;
            }
            assert_eq!(fixed < limit, float < float_limit, "{raw} {limit}");
        }
    }
}

#[test]
fn eod_threshold_strong_sun_tomorrow() {
    assert!((threshold(Some(5.0), true) - 26.3).abs() < 0.01);
}

#[test]
fn eod_threshold_overcast_tomorrow() {
    assert!((threshold(Some(1.0), true) - 27.0).abs() < 0.01);
}

#[test]
fn eod_threshold_no_data_fallback() {
    assert!((threshold(None, true) - 26.7).abs() < 0.01);
}

#[test]
fn eod_threshold_bonus_if_float_not_reached() {
    assert!((threshold(Some(5.0), false) - 26.5).abs() < 0.01);
}

#[test]
fn eod_threshold_steps() {
    assert_eq!(eod_threshold(Some(4_000_000), true), 26_300_000);
    assert_eq!(eod_threshold(Some(3_999_999), true), 26_700_000);
    assert_eq!(eod_threshold(Some(2_000_000), true), 26_700_000);
    assert_eq!(eod_threshold(Some(1_999_999), true), 27_000_000);
    assert_eq!(eod_threshold(Some(1_999_999), false), 27_200_000);
    assert_eq!(eod_threshold(None, false), 26_900_000);
}

#[test]
fn rule1_emergency_switches_to_grid() {
    let auto = AutoState::default();
    let inputs = base_inputs(Some(24.0), Some(24.0), RelayState::Solar);
    let d = decide(&auto, &inputs);
    assert_eq!(d.action, Action::SwitchToGrid);
    assert_eq!(d.reason, "emergency_low_voltage");
}

#[test]
fn rule1_emergency_works_even_when_disabled() {
    let mut auto = AutoState::default();
    auto.enabled = false;
    let inputs = base_inputs(Some(24.0), Some(24.0), RelayState::Solar);
    let d = decide(&auto, &inputs);
    assert_eq!(d.action, Action::SwitchToGrid);
}

#[test]
fn rule1_emergency_on_grid_holds() {
    let auto = AutoState::default();
    let d = decide(&auto, &base_inputs(Some(24.0), Some(24.0), RelayState::Grid));
    assert_eq!(d.action, Action::Hold);
    assert_eq!(d.reason, "emergency_low_voltage");
    let at_limit = decide(&auto, &base_inputs(Some(24.8), Some(24.8), RelayState::Solar));
    assert_eq!(at_limit.reason, "hold");
}

#[test]
fn auto_disabled_holds_outside_emergency() {
    let mut auto = AutoState::default();
    auto.enabled = false;
    let inputs = base_inputs(Some(26.0), Some(26.0), RelayState::Grid);
    let d = decide(&auto, &inputs);
    assert_eq!(d.action, Action::Hold);
    assert_eq!(d.reason, "auto_disabled");
}

#[test]
fn rule2_eod_triggers_when_low_battery_late_day() {
    let mut inputs = base_inputs(Some(26.5), Some(26.5), RelayState::Solar);
    inputs.now = dt(19);
    let auto = AutoState::default();
    let d = decide(&auto, &inputs);
    assert_eq!(d.action, Action::SwitchToGrid);
    assert_eq!(d.reason, "eod_recharge");
}

#[test]
fn rule2_eod_no_trigger_if_battery_full() {
    let mut inputs = base_inputs(Some(27.3), Some(27.3), RelayState::Solar);
    inputs.now = dt(19);
    let auto = AutoState::default();
    let d = decide(&auto, &inputs);
    assert_ne!(d.reason, "eod_recharge");
}

#[test]
fn rule2_eod_no_trigger_if_lockout_already() {
    let mut inputs = base_inputs(Some(26.5), Some(26.5), RelayState::Grid);
    inputs.now = dt(19);
    let mut auto = AutoState::default();
    auto.eod_lockout = true;
    let d = decide(&auto, &inputs);
    assert_eq!(d.action, Action::Hold);
    assert_eq!(d.reason, "hold");
}

#[test]
fn rule2_eod_window_opens_three_hours_before_sunset() {
    let auto = AutoState::default();
    let mut inputs = base_inputs(Some(26.5), Some(26.5), RelayState::Solar);
    inputs.now = dt(17);
    assert_eq!(decide(&auto, &inputs).reason, "eod_recharge");
    inputs.now.secs -= 1;
    inputs.now.nanos = 999_999_999;
    assert_eq!(decide(&auto, &inputs).reason, "hold");
}

#[test]
fn rule2_eod_on_grid_and_without_a_voltage() {
    let auto = AutoState::default();
    let mut inputs = base_inputs(None, None, RelayState::Grid);
    inputs.now = dt(19);
    let d = decide(&auto, &inputs);
    assert_eq!(d.action, Action::Hold);
    assert_eq!(d.reason, "eod_recharge");
    assert_eq!(d.message, "Fin de journée : V 0.00V < seuil 26.9V (recharge MPPT)");
}

#[test]
fn rule3_voltage_low_sustained_switches_after_3min() {
    let inputs = base_inputs(Some(25.0), Some(25.0), RelayState::Solar);
    let mut auto = AutoState::default();
    auto.low_voltage_minutes = 3;
    let d = decide(&auto, &inputs);
    assert_eq!(d.action, Action::SwitchToGrid);
    assert_eq!(d.reason, "voltage_low_sustained");
}

#[test]
fn rule3_no_switch_below_min_minutes() {
    let inputs = base_inputs(Some(25.0), Some(25.0), RelayState::Solar);
    let mut auto = AutoState::default();
    auto.low_voltage_minutes = 2;
    let d = decide(&auto, &inputs);
    assert_eq!(d.reason, "hold");
}

#[test]
fn rule3_applies_with_open_relays() {
    let mut auto = AutoState::default();
    auto.low_voltage_minutes = 12;
    let d = decide(&auto, &base_inputs(Some(25.0), Some(25.0), RelayState::Open));
    assert_eq!(d.action, Action::SwitchToGrid);
    assert_eq!(d.message, "Tension < 25.2V depuis 12 min");
    assert_eq!(decide(&auto, &base_inputs(Some(25.0), Some(25.0), RelayState::Grid)).reason, "hold");
}

#[test]
fn rule4_voltage_recovered_allows_solar() {
    let inputs = base_inputs(Some(26.5), Some(26.5), RelayState::Grid);
    let mut auto = AutoState::default();
    auto.recover_voltage_minutes = 5;
    let d = decide(&auto, &inputs);
    assert_eq!(d.action, Action::SwitchToSolar);
    assert_eq!(d.reason, "voltage_recovered");
}

#[test]
fn rule4_blocked_by_eod_lockout() {
    let inputs = base_inputs(Some(26.5), Some(26.5), RelayState::Grid);
    let mut auto = AutoState::default();
    auto.recover_voltage_minutes = 5;
    auto.eod_lockout = true;
    let d = decide(&auto, &inputs);
    assert_eq!(d.action, Action::Hold);
}

#[test]
fn rule4_blocked_outside_solar_window() {
    let mut inputs = base_inputs(Some(26.5), Some(26.5), RelayState::Grid);
    inputs.now = dt(22);
    let mut auto = AutoState::default();
    auto.recover_voltage_minutes = 5;
    let d = decide(&auto, &inputs);
    assert_ne!(d.action, Action::SwitchToSolar);
}

#[test]
fn anti_oscillation_blocks_recent_switch() {
    let mut inputs = base_inputs(Some(25.0), Some(25.0), RelayState::Solar);
    inputs.now = dt(12);
    let mut auto = AutoState::default();
    auto.low_voltage_minutes = 5;
    auto.last_switch_at = Some(dt(12).earlier_by(120));
    let d = decide(&auto, &inputs);
    assert_eq!(d.action, Action::Hold);
    assert_eq!(d.reason, "anti_oscillation");
}

#[test]
fn anti_oscillation_does_not_block_emergency() {
    let mut inputs = base_inputs(Some(24.0), Some(24.0), RelayState::Solar);
    inputs.now = dt(12);
    let mut auto = AutoState::default();
    auto.last_switch_at = Some(dt(12).earlier_by(60));
    let d = decide(&auto, &inputs);
    assert_eq!(d.action, Action::SwitchToGrid);
    assert_eq!(d.reason, "emergency_low_voltage");
}

#[test]
fn anti_oscillation_in_every_rule() {
    let mut auto = AutoState::default();
    auto.last_switch_at = Some(dt(12).earlier_by(599));
    auto.recover_voltage_minutes = 5;
    let mut inputs = base_inputs(Some(26.5), Some(26.5), RelayState::Grid);
    assert_eq!(decide(&auto, &inputs).message, "Reprise SOLAR souhaitée mais switch trop récent");
    auto.last_switch_at = Some(dt(12).earlier_by(600));
    assert_eq!(decide(&auto, &inputs).action, Action::SwitchToSolar);

    inputs = base_inputs(Some(26.5), Some(26.5), RelayState::Solar);
    inputs.now = dt(19);
    auto.last_switch_at = Some(dt(19).earlier_by(1));
    assert_eq!(decide(&auto, &inputs).message, "EOD souhaité mais switch trop récent");

    inputs = base_inputs(Some(25.0), Some(25.0), RelayState::Solar);
    auto.low_voltage_minutes = 3;
    auto.last_switch_at = Some(dt(12));
    assert_eq!(decide(&auto, &inputs).message, "Tension basse mais switch trop récent");
}

#[test]
fn a_manual_override_holds_every_rule() {
    let mut auto = AutoState::default();
    auto.manual_override_until = Some(dt(13));
    auto.low_voltage_minutes = 3;
    let mut inputs = base_inputs(Some(25.0), Some(25.0), RelayState::Solar);
    let d = decide(&auto, &inputs);
    assert_eq!(d.action, Action::Hold);
    assert_eq!(d.reason, "manual_override");
    assert_eq!(d.message, "Choix manuel respecté");
    inputs.now = dt(13);
    assert_eq!(decide(&auto, &inputs).reason, "voltage_low_sustained");
    inputs.now = dt(19);
    auto.manual_override_until = Some(dt(20));
    assert_eq!(decide(&auto, &inputs).reason, "manual_override");
    auto.enabled = false;
    assert_eq!(decide(&auto, &inputs).reason, "auto_disabled");

    auto = AutoState::default();
    auto.recover_voltage_minutes = 5;
    auto.manual_override_until = Some(dt(12).later_by(1));
    inputs = base_inputs(Some(26.5), Some(26.5), RelayState::Grid);
    assert_eq!(decide(&auto, &inputs).reason, "manual_override");
    assert!(is_override_running(&auto, dt(12)) && !is_override_running(&auto, dt(12).later_by(1)));
    assert!(!is_override_running(&AutoState::default(), dt(12)));
}

#[test]
fn a_manual_override_does_not_block_emergency() {
    let mut auto = AutoState::default();
    auto.manual_override_until = Some(dt(13));
    let d = decide(&auto, &base_inputs(Some(24.0), Some(24.0), RelayState::Solar));
    assert_eq!(d.action, Action::SwitchToGrid);
    assert_eq!(d.reason, "emergency_low_voltage");
}

#[test]
fn solar_lockout_blocks_rule4() {
    let inputs = base_inputs(Some(26.5), Some(26.5), RelayState::Grid);
    let mut auto = AutoState::default();
    auto.recover_voltage_minutes = 5;
    auto.solar_lockout = true;
    let d = decide(&auto, &inputs);
    assert_eq!(d.action, Action::Hold);
    assert_ne!(d.reason, "voltage_recovered");
}

#[test]
fn solar_lockout_does_not_block_emergency() {
    let inputs = base_inputs(Some(24.0), Some(24.0), RelayState::Solar);
    let mut auto = AutoState::default();
    auto.solar_lockout = true;
    let d = decide(&auto, &inputs);
    assert_eq!(d.action, Action::SwitchToGrid);
    assert_eq!(d.reason, "emergency_low_voltage");
}

#[test]
fn weather_unfavorable_blocks_rule4() {
    let mut inputs = base_inputs(Some(26.5), Some(26.5), RelayState::Grid);
    inputs.current_cloud_pct = Some(90_000_000);
    inputs.current_radiation_w = Some(50_000_000);
    let mut auto = AutoState::default();
    auto.recover_voltage_minutes = 5;
    let d = decide(&auto, &inputs);
    assert_eq!(d.action, Action::Hold);
    assert_eq!(d.reason, "weather_unfavorable");
}

#[test]
fn weather_unfavorable_fail_open_when_data_missing() {
    let inputs = base_inputs(Some(26.5), Some(26.5), RelayState::Grid);
    let mut auto = AutoState::default();
    auto.recover_voltage_minutes = 5;
    let d = decide(&auto, &inputs);
    assert_eq!(d.action, Action::SwitchToSolar);
}

#[test]
fn weather_unfavorable_fail_open_when_only_one_field_present() {
    let mut inputs = base_inputs(Some(26.5), Some(26.5), RelayState::Grid);
    inputs.current_cloud_pct = Some(90_000_000);
    inputs.current_radiation_w = None;
    let mut auto = AutoState::default();
    auto.recover_voltage_minutes = 5;
    let d = decide(&auto, &inputs);
    assert_eq!(d.action, Action::SwitchToSolar);
}

#[test]
fn weather_unfavorable_does_not_apply_below_threshold() {
    let mut inputs = base_inputs(Some(26.5), Some(26.5), RelayState::Grid);
    inputs.current_cloud_pct = Some(85_000_000);
    inputs.current_radiation_w = Some(250_000_000);
    let mut auto = AutoState::default();
    auto.recover_voltage_minutes = 5;
    let d = decide(&auto, &inputs);
    assert_eq!(d.action, Action::SwitchToSolar);
}

#[test]
fn weather_unfavorable_does_not_block_emergency() {
    let mut inputs = base_inputs(Some(24.0), Some(24.0), RelayState::Solar);
    inputs.current_cloud_pct = Some(95_000_000);
    inputs.current_radiation_w = Some(20_000_000);
    let auto = AutoState::default();
    let d = decide(&auto, &inputs);
    assert_eq!(d.action, Action::SwitchToGrid);
    assert_eq!(d.reason, "emergency_low_voltage");
}

#[test]
fn weather_limits_are_exact() {
    let mut auto = AutoState::default();
    auto.recover_voltage_minutes = 5;
    let mut inputs = base_inputs(Some(26.5), Some(26.5), RelayState::Grid);
    inputs.current_cloud_pct = Some(CLOUD_HIGH_PCT);
    inputs.current_radiation_w = Some(RADIATION_LOW_W - 1);
    assert_eq!(decide(&auto, &inputs).reason, "weather_unfavorable");
    inputs.current_radiation_w = Some(RADIATION_LOW_W);
    assert_eq!(decide(&auto, &inputs).reason, "voltage_recovered");
    inputs.current_radiation_w = Some(0);
    inputs.current_cloud_pct = Some(CLOUD_HIGH_PCT - 1);
    assert_eq!(decide(&auto, &inputs).reason, "voltage_recovered");
}

#[test]
fn messages_read_as_written() {
    let auto = AutoState::default();
    assert_eq!(
        decide(&auto, &base_inputs(Some(24.0), None, RelayState::Solar)).message,
        format!("Urgence : tension batterie {:.2}V < {:.1}V", 24.0f32, 24.8f32)
    );
    let mut inputs = base_inputs(Some(26.5), Some(26.5), RelayState::Solar);
    inputs.now = dt(19);
    assert_eq!(
        decide(&auto, &inputs).message,
        format!("Fin de journée : V {:.2}V < seuil {:.1}V (recharge MPPT)", 26.5f32, 26.9f32)
    );
    let mut ready = AutoState::default();
    ready.recover_voltage_minutes = 7;
    let mut dull = base_inputs(Some(26.5), Some(26.5), RelayState::Grid);
    assert_eq!(decide(&ready, &dull).message, "Tension ≥ 26.2V depuis 7 min — reprise solaire");
    dull.current_cloud_pct = Some(90_500_000);
    dull.current_radiation_w = Some(50_400_000);
    assert_eq!(
        decide(&ready, &dull).message,
        format!("Reprise Solar reportée — ciel couvert ({:.0}%, {:.0} W/m²)", 90.5f32, 50.4f32)
    );
    ready.enabled = false;
    assert_eq!(decide(&ready, &dull).message, "Auto-switch désactivé");
    assert_eq!(decide(&auto, &base_inputs(Some(26.0), Some(26.0), RelayState::Grid)).message, "Conditions stables");
}

#[test]
fn solar_window_bounds() {
    let mut inputs = base_inputs(None, None, RelayState::Grid);
    inputs.now = dt(6);
    assert!(in_solar_window(&inputs));
    inputs.now = dt(17);
    assert!(in_solar_window(&inputs));
    inputs.now.nanos = 1;
    assert!(!in_solar_window(&inputs));
    inputs.now = dt(5);
    assert!(!in_solar_window(&inputs));
    inputs.today_sunset = None;
    assert!(in_solar_window(&inputs));
}

#[test]
fn a_leap_second_lies_before_the_next_second() {
    let mut inputs = base_inputs(None, None, RelayState::Grid);
    inputs.today_sunrise = Some(Instant { secs: 59, nanos: 1_500_000_000 });
    inputs.now = Instant { secs: 60, nanos: 200_000_000 };
    assert!(in_solar_window(&inputs));
    inputs.now = Instant { secs: 59, nanos: 999_999_999 };
    assert!(!in_solar_window(&inputs));
}

#[test]
fn decisions_take_any_point_in_time() {
    let mut inputs = base_inputs(Some(26.5), Some(26.5), RelayState::Solar);
    inputs.today_sunset = Some(Instant { secs: i64::MIN, nanos: 0 });
    assert_eq!(decide(&AutoState::default(), &inputs).reason, "eod_recharge");
    inputs.today_sunset = Some(Instant { secs: i64::MAX, nanos: 0 });
    assert_eq!(decide(&AutoState::default(), &inputs).reason, "hold");
}

#[test]
fn within_counts_from_the_past_and_the_future() {
    assert!(!is_within(None, dt(12), 600));
    assert!(is_within(Some(dt(12).earlier_by(599)), dt(12), 600));
    assert!(!is_within(Some(dt(12).earlier_by(600)), dt(12), 600));
    assert!(is_within(Some(dt(13)), dt(12), 600));
}

fn day(date: i32, sunrise: Option<Instant>) -> ForecastDay {
    ForecastDay { date, sunrise, sunset: None, shortwave_sum_kwh: Some(date as i64) }
}

#[test]
fn today_is_the_latest_sunrise() {
    let forecast = [
        day(10, Some(dt(6).earlier_by(86_400))),
        day(11, Some(dt(6))),
        day(12, Some(dt(6).later_by(86_400))),
    ];
    let (today, tomorrow) = select_today_tomorrow(&forecast, dt(12));
    assert_eq!(today.unwrap().date, 11);
    assert_eq!(tomorrow.unwrap().date, 12);
    let (early, next) = select_today_tomorrow(&forecast, dt(5));
    assert_eq!(early.unwrap().date, 10);
    assert_eq!(next.unwrap().date, 11);
    let (at_sunrise, _) = select_today_tomorrow(&forecast, dt(6));
    assert_eq!(at_sunrise.unwrap().date, 11);
}

#[test]
fn today_falls_back_to_the_first_entry() {
    let forecast = [day(20, None), day(22, Some(dt(20)))];
    let (today, tomorrow) = select_today_tomorrow(&forecast, dt(12));
    assert_eq!(today.unwrap().date, 20);
    assert!(tomorrow.is_none());
    assert_eq!(select_today_tomorrow(&[], dt(12)), (None, None));
    let last = [day(i32::MAX, Some(dt(1)))];
    assert!(select_today_tomorrow(&last, dt(12)).1.is_none());
}

#[test]
fn equal_sunrises_take_the_later_entry() {
    let forecast = [day(1, Some(dt(6))), day(2, Some(dt(6))), day(3, Some(dt(23)))];
    let (today, tomorrow) = select_today_tomorrow(&forecast, dt(12));
    assert_eq!(today.unwrap().date, 2);
    assert_eq!(tomorrow.unwrap().date, 3);
}
