use solar_relay::auto::{Action, Decision};
use solar_relay::clock::Instant;
use solar_relay::db::{ForecastDay, WeatherSample};
use solar_relay::relay::{PinLevels, RelayController, RelayError, RelayState, SwitchAction, SwitchEvent};
use solar_relay::state::{AppState, InnerState, Network, SensorReading};
use solar_relay::routes::finish_post_switch;
use solar_relay::tick::{begin_switch, finish_switch, is_on_target, tick_once};
use solar_relay::watchdog::{check_pins, watchdog_event};

const HOUR: i64 = 3_600;

fn at(secs: i64) -> Instant {
    Instant { secs, nanos: 0 }
}

fn inner(volts: i64, state: RelayState) -> InnerState {
    let mut inner = AppState::new(RelayController::new()).inner;
    let reading = SensorReading { address: 0x40, bus_voltage_v: volts, current_ma: 0 };
    inner.live.push(0, &[reading], None);
    inner.sensors = vec![reading];
    inner.published_state = state;
    inner
}

fn on(network: Network) -> RelayController {
    let mut relay = RelayController::new();
    let mut run = relay.switch_to(network, 500);
    let mut pins = PinLevels { grid_low: false, solar_low: false };
    loop {
        let event = match run.action() {
            SwitchAction::ReadPins => SwitchEvent::Pins(pins),
            SwitchAction::Close(Network::Grid) => {
                pins.grid_low = true;
                SwitchEvent::Performed
            }
            SwitchAction::Close(Network::Solar) => {
                pins.solar_low = true;
                SwitchEvent::Performed
            }
            SwitchAction::Finish(outcome) => {
                outcome.unwrap();
                return relay;
            }
            _ => SwitchEvent::Performed,
        };
        run.advance(&mut relay, event);
    }
}

fn forecast() -> Vec<ForecastDay> {
    vec![
        ForecastDay { date: 1, sunrise: Some(at(6 * HOUR)), sunset: Some(at(20 * HOUR)), shortwave_sum_kwh: None },
        ForecastDay { date: 2, sunrise: Some(at(30 * HOUR)), sunset: None, shortwave_sum_kwh: Some(5_000_000) },
    ]
}

fn decision(action: Action, reason: &'static str) -> Decision {
    Decision { action, reason, message: String::new() }
}

const FAILED: Result<(), RelayError> = Err(RelayError::BothClosed { grid_low: true, solar_low: true });

#[test]
fn an_emergency_tick_needs_no_database() {
    let mut inner = inner(24_000_000, RelayState::Solar);
    inner.auto.enabled = false;
    inner.auto.last_switch_at = Some(at(99));
    let mut seen = None;
    let d = tick_once(&mut inner, &mut seen, at(100), &[], None);
    assert_eq!(d.action, Action::SwitchToGrid);
    assert_eq!(d.reason, "emergency_low_voltage");
    let kept = inner.auto.last_decision.as_ref().unwrap();
    assert_eq!(kept.at, at(100));
    assert_eq!(kept.reason, d.reason);
    assert_eq!(kept.message, d.message);
    assert_eq!(seen, None);
    assert_eq!(inner.auto.eod_at, None);
    assert_eq!(inner.auto.eod_threshold_v, None);
}

#[test]
fn ticks_count_minutes() {
    let mut inner = inner(25_000_000, RelayState::Solar);
    let mut seen = None;
    for minute in 1..=3 {
        let d = tick_once(&mut inner, &mut seen, at(minute * 60), &[], None);
        assert_eq!(inner.auto.low_voltage_minutes, minute as u32);
        assert_eq!(d.reason == "voltage_low_sustained", minute == 3);
    }
    assert_eq!(inner.auto.recover_voltage_minutes, 0);
    inner.live.push(1, &[SensorReading { address: 0x40, bus_voltage_v: 27_200_000, current_ma: 0 }], None);
    for minute in 1..=10 {
        tick_once(&mut inner, &mut seen, at(1_000 + minute * 60), &[], None);
        assert_eq!(inner.auto.low_voltage_minutes, 0);
        assert_eq!(inner.auto.recover_voltage_minutes, minute as u32);
        assert_eq!(inner.auto.float_voltage_minutes, minute as u32);
        assert!(inner.auto.float_voltage_minutes <= inner.auto.recover_voltage_minutes);
        assert_eq!(inner.auto.float_reached_today, minute == 10);
    }
    inner.auto.recover_voltage_minutes = u32::MAX;
    tick_once(&mut inner, &mut seen, at(5_000), &[], None);
    assert_eq!(inner.auto.recover_voltage_minutes, u32::MAX);
}

#[test]
fn a_tick_refreshes_what_is_shown() {
    let mut inner = inner(25_300_000, RelayState::Grid);
    let mut seen = None;
    tick_once(&mut inner, &mut seen, at(12 * HOUR), &forecast(), None);
    assert_eq!(inner.auto.soc_percent, Some(67_500_000));
    assert_eq!(inner.auto.eod_at, Some(at(17 * HOUR)));
    assert_eq!(inner.auto.eod_threshold_v, Some(26_500_000));
    assert_eq!(seen, Some(at(6 * HOUR)));
}

#[test]
fn without_measurements_the_charge_stays() {
    let mut inner = AppState::new(RelayController::new()).inner;
    let mut seen = None;
    inner.auto.soc_percent = Some(5);
    tick_once(&mut inner, &mut seen, at(60), &[], None);
    assert_eq!(inner.auto.soc_percent, Some(5));
    assert_eq!(inner.auto.low_voltage_minutes, 1);
    inner.sensors = vec![SensorReading { address: 0x40, bus_voltage_v: 24_400_000, current_ma: 0 }];
    tick_once(&mut inner, &mut seen, at(120), &[], None);
    assert_eq!(inner.auto.soc_percent, Some(30_000_000));
}

#[test]
fn a_sunrise_begins_one_day() {
    let mut inner = inner(26_000_000, RelayState::Grid);
    let mut seen = None;
    let lock = |inner: &mut InnerState| {
        inner.auto.eod_lockout = true;
        inner.auto.solar_lockout = true;
        inner.auto.solar_failed_attempts_today = 2;
        inner.auto.float_reached_today = true;
        inner.auto.last_solar_attempt_at = Some(at(1));
    };
    lock(&mut inner);
    tick_once(&mut inner, &mut seen, at(5 * HOUR), &forecast(), None);
    assert!(inner.auto.eod_lockout && inner.auto.solar_lockout && inner.auto.float_reached_today);
    tick_once(&mut inner, &mut seen, at(7 * HOUR), &forecast(), None);
    assert!(!inner.auto.eod_lockout && !inner.auto.solar_lockout && !inner.auto.float_reached_today);
    assert_eq!(inner.auto.solar_failed_attempts_today, 0);
    assert_eq!(inner.auto.last_solar_attempt_at, None);
    lock(&mut inner);
    tick_once(&mut inner, &mut seen, at(8 * HOUR), &forecast(), None);
    assert!(inner.auto.eod_lockout && inner.auto.solar_lockout && inner.auto.float_reached_today);
}

#[test]
fn the_weather_reaches_the_decision() {
    let mut inner = inner(26_500_000, RelayState::Grid);
    inner.auto.recover_voltage_minutes = 4;
    let mut seen = None;
    let dull = WeatherSample { cloud_cover_pct: Some(90_000_000), shortwave_wm2: Some(50_000_000) };
    let d = tick_once(&mut inner, &mut seen, at(12 * HOUR), &forecast(), Some(dull));
    assert_eq!(d.reason, "weather_unfavorable");
    let d = tick_once(&mut inner, &mut seen, at(12 * HOUR + 60), &forecast(), None);
    assert_eq!(d.reason, "voltage_recovered");
}

#[test]
fn an_evening_switch_locks_solar_out() {
    let mut inner = inner(26_000_000, RelayState::Solar);
    let mut seen = None;
    let d = tick_once(&mut inner, &mut seen, at(18 * HOUR), &forecast(), None);
    assert_eq!(d.reason, "eod_recharge");
    let mut relay = on(Network::Solar);
    let run = begin_switch(&mut relay, &mut inner.auto, &d, at(18 * HOUR)).unwrap();
    assert_eq!((run.target, run.settle), (Network::Grid, 2_000));
    assert!(inner.auto.eod_lockout);
    inner.auto.eod_lockout = false;
    assert!(begin_switch(&mut on(Network::Grid), &mut inner.auto, &d, at(18 * HOUR)).is_none());
    assert!(inner.auto.eod_lockout);
}

#[test]
fn other_decisions_lock_nothing_out() {
    let mut auto = inner(26_000_000, RelayState::Grid).auto;
    let mut relay = on(Network::Grid);
    assert!(begin_switch(&mut relay, &mut auto, &decision(Action::Hold, "eod_recharge"), at(0)).is_none());
    assert_eq!(relay.current_state(), RelayState::Grid);
    let up = decision(Action::SwitchToSolar, "voltage_recovered");
    assert_eq!(begin_switch(&mut relay, &mut auto, &up, at(0)).unwrap().target, Network::Solar);
    assert!(!auto.eod_lockout);
}

#[test]
fn a_switch_is_only_begun_where_needed() {
    let mut auto = inner(26_000_000, RelayState::Grid).auto;
    let mut relay = on(Network::Grid);
    assert!(begin_switch(&mut relay, &mut auto, &decision(Action::SwitchToGrid, "voltage_low_sustained"), at(0)).is_none());
    assert_eq!(relay.current_state(), RelayState::Grid);
    let run = begin_switch(&mut relay, &mut auto, &decision(Action::SwitchToSolar, "voltage_recovered"), at(0)).unwrap();
    assert_eq!((run.target, run.settle), (Network::Solar, 2_000));
    assert_eq!(relay.current_state(), RelayState::Open);
    assert!(is_on_target(RelayState::Solar, Network::Solar));
    assert!(!is_on_target(RelayState::Open, Network::Solar));
}

#[test]
fn a_late_decision_stands_back() {
    let mut inner = inner(25_000_000, RelayState::Grid);
    let mut relay = on(Network::Solar);
    finish_post_switch(&mut inner, at(105), &relay, Ok(()));
    for reason in ["voltage_low_sustained", "eod_recharge"] {
        let down = decision(Action::SwitchToGrid, reason);
        assert!(begin_switch(&mut relay, &mut inner.auto, &down, at(100)).is_none());
        assert_eq!(relay.current_state(), RelayState::Solar);
        assert!(!inner.auto.eod_lockout);
    }
    let urgent = decision(Action::SwitchToGrid, "emergency_low_voltage");
    assert_eq!(begin_switch(&mut relay, &mut inner.auto, &urgent, at(100)).unwrap().target, Network::Grid);
}

#[test]
fn an_emergency_does_not_end_a_manual_override() {
    let mut inner = inner(25_000_000, RelayState::Grid);
    let mut seen = None;
    finish_post_switch(&mut inner, at(1_000), &on(Network::Solar), Ok(()));
    let urgent = decision(Action::SwitchToGrid, "emergency_low_voltage");
    finish_switch(&mut inner, &urgent, at(100), &RelayController::new(), FAILED);
    inner.auto.low_voltage_minutes = 10;
    let d = tick_once(&mut inner, &mut seen, at(1_599), &[], None);
    assert_eq!((d.action, d.reason), (Action::Hold, "manual_override"));
    let d = tick_once(&mut inner, &mut seen, at(1_600), &[], None);
    assert_eq!(d.action, Action::SwitchToGrid);
}

#[test]
fn two_failures_of_solar_lock_it_out() {
    let mut inner = inner(26_000_000, RelayState::Grid);
    let up = decision(Action::SwitchToSolar, "voltage_recovered");
    let down = decision(Action::SwitchToGrid, "voltage_low_sustained");
    let solar = on(Network::Solar);
    let grid = on(Network::Grid);
    let event = finish_switch(&mut inner, &up, at(0), &solar, Ok(())).unwrap();
    assert_eq!((event.state, event.reason.as_str()), ("solar", "auto:voltage_recovered"));
    assert_eq!(inner.published_state, RelayState::Solar);
    assert_eq!(inner.auto.last_solar_attempt_at, Some(at(0)));
    finish_switch(&mut inner, &down, at(899), &grid, Ok(()));
    assert_eq!(inner.auto.solar_failed_attempts_today, 1);
    assert!(!inner.auto.solar_lockout);
    finish_switch(&mut inner, &up, at(2_000), &solar, Ok(()));
    finish_switch(&mut inner, &down, at(2_900), &grid, Ok(()));
    assert_eq!(inner.auto.solar_failed_attempts_today, 1);
    finish_switch(&mut inner, &up, at(4_000), &solar, Ok(()));
    finish_switch(&mut inner, &down, at(4_800), &grid, Ok(()));
    assert_eq!(inner.auto.solar_failed_attempts_today, 2);
    assert!(inner.auto.solar_lockout);
    assert_eq!(inner.auto.last_switch_at, Some(at(4_800)));
}

#[test]
fn a_failed_switch_is_no_event() {
    let mut inner = inner(26_000_000, RelayState::Grid);
    let up = decision(Action::SwitchToSolar, "voltage_recovered");
    let open = RelayController::new();
    assert!(finish_switch(&mut inner, &up, at(7), &open, FAILED).is_none());
    assert_eq!(inner.published_state, RelayState::Open);
    assert_eq!(inner.auto.last_switch_at, Some(at(7)));
    assert_eq!(inner.auto.last_solar_attempt_at, None);
}

#[test]
fn no_tick_moves_the_relays_soon_after_a_switch() {
    let mut inner = inner(25_000_000, RelayState::Solar);
    inner.auto.last_switch_at = Some(at(0));
    let mut seen = None;
    for minute in 1..10 {
        let d = tick_once(&mut inner, &mut seen, at(minute * 60), &[], None);
        assert_eq!(d.action, Action::Hold);
    }
    let d = tick_once(&mut inner, &mut seen, at(600), &[], None);
    assert_eq!(d.action, Action::SwitchToGrid);
}

#[test]
fn the_watchdog_opens_and_publishes() {
    let mut inner = inner(26_000_000, RelayState::Grid);
    let mut relay = on(Network::Grid);
    let fine = PinLevels { grid_low: true, solar_low: false };
    let report = check_pins(&mut relay, &mut inner, fine, at(1));
    assert_eq!(report, Ok(()));
    assert!(watchdog_event(&relay, report).is_none());
    assert_eq!(inner.published_state, RelayState::Grid);
    assert_eq!(inner.auto.last_switch_at, None);
    let both = PinLevels { grid_low: true, solar_low: true };
    let report = check_pins(&mut relay, &mut inner, both, at(2));
    assert_eq!(report, FAILED);
    let event = watchdog_event(&relay, report).unwrap();
    assert_eq!((event.state, event.reason.as_str()), ("open", "watchdog"));
    assert_eq!(relay.current_state(), RelayState::Open);
    assert_eq!(inner.published_state, RelayState::Open);
    assert_eq!(inner.auto.last_switch_at, Some(at(2)));
}
