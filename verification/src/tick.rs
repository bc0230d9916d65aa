//! One tick of the automatic changeover, from the measurements to the decision,
//! and what follows once the decision has been carried out.

use vstd::prelude::*;
use vstd::string::*;

use crate::auto::{
    charge_at, decide, entry_at, eod_threshold, is_override_running, is_within,
    override_runs, recharge_below, select_today_tomorrow, soc_from_voltage,
    today_in, tomorrow_in, verdict, window_start, within, Action, Decision, DecisionInputs, Verdict,
    EOD_OFFSET, REST_WINDOW, SOLAR_FAIL_WINDOW, SOLAR_LOCKOUT_AFTER, V_FLOAT, V_FLOAT_MIN_MINUTES, V_LOW,
    V_RECOVER,
};
use crate::clock::Instant;
use crate::db::{ForecastDay, RelayEvent, WeatherSample};
use crate::decimal::Micro;
use crate::relay::{run_start, state_on, RelayController, RelayError, RelayState, SwitchRun};
use crate::state::{
    highest, recent, value_for, voltage_at, AutoDecision, AutoState, InnerState, Network, GRID_SENSOR,
};
use crate::text::same_text;

verus! {

/// The pause, in milliseconds, that an automatic changeover asks for.
pub const SWITCH_AUTO_DELAY: u64 = 2_000;

/// What a tick looks at besides the shared state.
pub struct Surroundings {
    pub today_sunrise: Option<Instant>,
    pub today_sunset: Option<Instant>,
    pub tomorrow_radiation_kwh: Option<Micro>,
    pub cloud_pct: Option<Micro>,
    pub radiation_w: Option<Micro>,
}

/// What a forecast and a weather sample tell a tick.
pub open spec fn surroundings(
    forecast: Seq<ForecastDay>,
    weather: Option<WeatherSample>,
    now: Instant,
) -> Surroundings {
    let today = entry_at(forecast, today_in(forecast, now));
    let tomorrow = entry_at(forecast, tomorrow_in(forecast, now));
    Surroundings {
        today_sunrise: match today {
            Some(day) => day.sunrise,
            None => None,
        },
        today_sunset: match today {
            Some(day) => day.sunset,
            None => None,
        },
        tomorrow_radiation_kwh: match tomorrow {
            Some(day) => day.shortwave_sum_kwh,
            None => None,
        },
        cloud_pct: match weather {
            Some(sample) => sample.cloud_cover_pct,
            None => None,
        },
        radiation_w: match weather {
            Some(sample) => sample.shortwave_wm2,
            None => None,
        },
    }
}

/// Whether today's sunrise has come and was not seen by an earlier tick.
pub open spec fn day_breaks(seen: Option<Instant>, sunrise: Option<Instant>, now: Instant) -> bool {
    sunrise matches Some(sunrise) && seen != Some(sunrise) && sunrise.spec_not_after(now)
}

/// The automatic changeover at sunrise: what counted for the day before is
/// forgotten.
pub open spec fn at_day_break(auto: AutoState) -> AutoState {
    AutoState {
        float_reached_today: false,
        eod_lockout: false,
        float_voltage_minutes: 0,
        solar_lockout: false,
        solar_failed_attempts_today: 0,
        last_solar_attempt_at: None,
        ..auto
    }
}

/// One more minute, or none where the condition does not hold.
pub open spec fn minutes_of(held: bool, minutes: u32) -> u32 {
    if !held {
        0
    } else if minutes < u32::MAX {
        (minutes + 1) as u32
    } else {
        minutes
    }
}

/// The counters after a minute at the voltage `v`, and the float flag.
pub open spec fn counted(auto: AutoState, v: int) -> AutoState {
    let float_minutes = minutes_of(v >= V_FLOAT, auto.float_voltage_minutes);
    AutoState {
        low_voltage_minutes: minutes_of(v < V_LOW, auto.low_voltage_minutes),
        recover_voltage_minutes: minutes_of(v >= V_RECOVER, auto.recover_voltage_minutes),
        float_voltage_minutes: float_minutes,
        float_reached_today: auto.float_reached_today || (v >= V_FLOAT && float_minutes
            >= V_FLOAT_MIN_MINUTES),
        ..auto
    }
}

/// The voltage right now, from the sensor on the battery.
pub open spec fn voltage_now(inner: InnerState) -> Option<Micro> {
    voltage_at(inner.sensors@, GRID_SENSOR)
}

/// The voltage at rest, over the last five minutes.
pub open spec fn voltage_at_rest(inner: InnerState) -> Option<Micro> {
    highest(recent(inner.live.sensor_grid_v@, REST_WINDOW as nat))
}

/// The estimate of the charge that a tick shows: from the voltage at rest, else
/// from the voltage right now, else what was shown before.
pub open spec fn shown_charge(
    shown: Option<Micro>,
    at_rest: Option<Micro>,
    right_now: Option<Micro>,
) -> Option<Micro> {
    match (at_rest, right_now) {
        (Some(v), _) => Some(charge_at(v as int) as i64),
        (None, Some(v)) => Some(charge_at(v as int) as i64),
        (None, None) => shown,
    }
}

/// The automatic changeover once a tick has looked at the measurements.
pub open spec fn auto_after_look(
    inner: InnerState,
    seen: Option<Instant>,
    now: Instant,
    around: Surroundings,
) -> AutoState {
    let auto = if day_breaks(seen, around.today_sunrise, now) {
        at_day_break(inner.auto)
    } else {
        inner.auto
    };
    let at_rest = voltage_at_rest(inner);
    counted(
        AutoState {
            soc_percent: shown_charge(auto.soc_percent, at_rest, voltage_now(inner)),
            eod_at: match around.today_sunset {
                Some(sunset) => Some(window_start(sunset)),
                None => None,
            },
            eod_threshold_v: match around.today_sunset {
                Some(_) => Some(
                    recharge_below(
                        around.tomorrow_radiation_kwh,
                        auto.float_reached_today,
                    ) as i64,
                ),
                None => None,
            },
            ..auto
        },
        match at_rest {
            Some(v) => v as int,
            None => 0,
        },
    )
}

/// What the decision of a tick is taken from.
pub open spec fn inputs_of(inner: InnerState, now: Instant, around: Surroundings) -> DecisionInputs {
    DecisionInputs {
        now,
        current_relay: inner.published_state,
        voltage_inst: voltage_now(inner),
        voltage_max5min: voltage_at_rest(inner),
        today_sunrise: around.today_sunrise,
        today_sunset: around.today_sunset,
        tomorrow_radiation_kwh: around.tomorrow_radiation_kwh,
        current_cloud_pct: around.cloud_pct,
        current_radiation_w: around.radiation_w,
    }
}

/// The sunrise that counts as seen after a tick.
pub open spec fn seen_after(seen: Option<Instant>, sunrise: Option<Instant>, now: Instant) -> Option<
    Instant,
> {
    if day_breaks(seen, sunrise, now) {
        sunrise
    } else {
        seen
    }
}

/// Adds a minute to a counter, or clears it.
fn count_minute(held: bool, minutes: u32) -> (counted: u32)
    ensures
        counted == minutes_of(held, minutes),
{
    if held {
        minutes.saturating_add(1)
    } else {
        0
    }
}

/// Looks at the measurements: begins a new day at sunrise, refreshes what is
/// displayed and the counters, and gathers what the decision needs.
fn look(
    inner: &mut InnerState,
    last_sunrise_seen: &mut Option<Instant>,
    now: Instant,
    forecast: &[ForecastDay],
    latest_weather: Option<WeatherSample>,
) -> (inputs: DecisionInputs)
    ensures
        ({
            let around = surroundings(forecast@, latest_weather, now);
            &&& inputs == inputs_of(*old(inner), now, around)
            &&& *final(inner) == (InnerState {
                auto: auto_after_look(*old(inner), *old(last_sunrise_seen), now, around),
                ..*old(inner)
            })
            &&& *final(last_sunrise_seen) == seen_after(
                *old(last_sunrise_seen),
                around.today_sunrise,
                now,
            )
        }),
{
    let (today, tomorrow) = select_today_tomorrow(forecast, now);
    let today_sunrise: Option<Instant> = match today {
        Some(day) => day.sunrise,
        None => None,
    };
    let today_sunset: Option<Instant> = match today {
        Some(day) => day.sunset,
        None => None,
    };
    let tomorrow_radiation: Option<Micro> = match tomorrow {
        Some(day) => day.shortwave_sum_kwh,
        None => None,
    };
    let current_cloud_pct: Option<Micro> = match latest_weather {
        Some(sample) => sample.cloud_cover_pct,
        None => None,
    };
    let current_radiation_w: Option<Micro> = match latest_weather {
        Some(sample) => sample.shortwave_wm2,
        None => None,
    };
    let eod_at: Option<Instant> = match today_sunset {
        Some(sunset) => Some(sunset.earlier_by(EOD_OFFSET)),
        None => None,
    };
    if let Some(sunrise) = today_sunrise {
        let crossed: bool = match *last_sunrise_seen {
            Some(seen) => seen != sunrise,
            None => true,
        };
        if crossed && sunrise.not_after(&now) {
            inner.auto.float_reached_today = false;
            inner.auto.eod_lockout = false;
            inner.auto.float_voltage_minutes = 0;
            inner.auto.solar_lockout = false;
            inner.auto.solar_failed_attempts_today = 0;
            inner.auto.last_solar_attempt_at = None;
            *last_sunrise_seen = Some(sunrise);
        }
    }
    let v_inst: Option<Micro> = value_for(inner.sensors.as_slice(), GRID_SENSOR);
    let v_max5: Option<Micro> = inner.live.max_battery_voltage_recent(REST_WINDOW);
    match (v_max5, v_inst) {
        (Some(v), _) => {
            inner.auto.soc_percent = Some(soc_from_voltage(v));
        },
        (None, Some(v)) => {
            inner.auto.soc_percent = Some(soc_from_voltage(v));
        },
        (None, None) => {},
    }
    inner.auto.eod_at = eod_at;
    inner.auto.eod_threshold_v = if today_sunset.is_some() {
        Some(eod_threshold(tomorrow_radiation, inner.auto.float_reached_today))
    } else {
        None
    };
    let v: Micro = match v_max5 {
        Some(v) => v,
        None => 0,
    };
    inner.auto.low_voltage_minutes = count_minute(v < V_LOW, inner.auto.low_voltage_minutes);
    inner.auto.recover_voltage_minutes = count_minute(
        v >= V_RECOVER,
        inner.auto.recover_voltage_minutes,
    );
    inner.auto.float_voltage_minutes = count_minute(v >= V_FLOAT, inner.auto.float_voltage_minutes);
    if v >= V_FLOAT && inner.auto.float_voltage_minutes >= V_FLOAT_MIN_MINUTES {
        inner.auto.float_reached_today = true;
    }
    DecisionInputs {
        now,
        current_relay: inner.published_state,
        voltage_inst: v_inst,
        voltage_max5min: v_max5,
        today_sunrise,
        today_sunset,
        tomorrow_radiation_kwh: tomorrow_radiation,
        current_cloud_pct,
        current_radiation_w,
    }
}

/// A decision as it is kept for display.
pub open spec fn is_record_of(record: Option<AutoDecision>, at: Instant, verdict: Verdict) -> bool {
    &&& record matches Some(kept)
    &&& kept.at == at
    &&& kept.reason@ == verdict.reason
    &&& kept.message@ == verdict.message
}

/// One tick: looks at the measurements, decides, and keeps the decision for
/// display, whatever it is. The forecast is empty and the weather missing where
/// the database cannot be reached.
pub fn tick_once(
    inner: &mut InnerState,
    last_sunrise_seen: &mut Option<Instant>,
    now: Instant,
    forecast: &[ForecastDay],
    latest_weather: Option<WeatherSample>,
) -> (decision: Decision)
    ensures
        ({
            let around = surroundings(forecast@, latest_weather, now);
            let looked = auto_after_look(*old(inner), *old(last_sunrise_seen), now, around);
            &&& decision@ == verdict(looked, inputs_of(*old(inner), now, around))
            &&& is_record_of(final(inner).auto.last_decision, now, decision@)
            &&& final(inner).auto.last_decision is Some
            &&& final(inner).auto.last_decision->0.at == now
            &&& final(inner).auto.last_decision->0.reason@ == decision.reason@
            &&& final(inner).auto.last_decision->0.message@ == decision.message@
            &&& final(inner).auto == (AutoState {
                last_decision: final(inner).auto.last_decision,
                ..looked
            })
            &&& *final(inner) == (InnerState { auto: final(inner).auto, ..*old(inner) })
            &&& *final(last_sunrise_seen) == seen_after(
                *old(last_sunrise_seen),
                around.today_sunrise,
                now,
            )
        }),
{
    let inputs: DecisionInputs = look(inner, last_sunrise_seen, now, forecast, latest_weather);
    let decision: Decision = decide(&inner.auto, &inputs);
    inner.auto.last_decision = Some(
        AutoDecision {
            at: now,
            reason: decision.reason.to_owned(),
            message: decision.message.clone(),
        },
    );
    decision
}

// ---------------------------------------------------------------------------
// Carrying a decision out
// ---------------------------------------------------------------------------
/// The network that a decision switches to.
pub open spec fn target_of(action: Action) -> Option<Network> {
    match action {
        Action::Hold => None,
        Action::SwitchToGrid => Some(Network::Grid),
        Action::SwitchToSolar => Some(Network::Solar),
    }
}

/// Whether the relays are where a decision wants them.
pub fn is_on_target(actual: RelayState, target: Network) -> (b: bool)
    ensures
        b == (actual == state_on(target)),
{
    match target {
        Network::Grid => actual == RelayState::Grid,
        Network::Solar => actual == RelayState::Solar,
    }
}

/// The network that a decision switches to.
fn network_of(action: Action) -> (target: Option<Network>)
    ensures
        target == target_of(action),
{
    match action {
        Action::Hold => None,
        Action::SwitchToGrid => Some(Network::Grid),
        Action::SwitchToSolar => Some(Network::Solar),
    }
}

/// Where a decision still leads once the relays are at hand: nowhere where it is
/// no emergency and what the user chose by hand stands, as a changeover by hand may
/// have brought about since the decision was taken.
pub open spec fn target_still_wanted(
    auto: AutoState,
    action: Action,
    reason: Seq<char>,
    now: Instant,
) -> Option<Network> {
    if reason != "emergency_low_voltage"@ && override_runs(auto, now) {
        None
    } else {
        target_of(action)
    }
}

/// The automatic changeover once a decision is about to be carried out: an
/// end-of-day switch locks solar out until the next sunrise before the relays move.
pub open spec fn auto_before_switch(auto: AutoState, reason: Seq<char>) -> AutoState {
    AutoState { eod_lockout: auto.eod_lockout || reason == "eod_recharge"@, ..auto }
}

/// Starts the changeover that a decision of the tick at `now` wants, unless what
/// the user chose by hand stands against it. There is no changeover either where the
/// load is on the target already.
pub fn begin_switch(
    relay: &mut RelayController,
    auto: &mut AutoState,
    decision: &Decision,
    now: Instant,
) -> (run: Option<SwitchRun>)
    ensures
        match target_still_wanted(*old(auto), decision.action, decision.reason@, now) {
            Some(target) => {
                &&& *final(auto) == auto_before_switch(*old(auto), decision.reason@)
                &&& if old(relay)@ == state_on(target) {
                    run is None && final(relay)@ == old(relay)@
                } else {
                    run == Some(run_start(target, SWITCH_AUTO_DELAY)) && final(relay)@
                        == RelayState::Open
                }
            },
            None => run is None && *final(auto) == *old(auto) && final(relay)@ == old(relay)@,
        },
        ({
            let chosen = old(auto).manual_override_until is Some
                && !old(auto).manual_override_until->0.spec_not_after(now);
            let grid = decision.action == Action::SwitchToGrid;
            &&& decision.action != Action::Hold && !chosen && old(relay)@ != (if grid {
                RelayState::Grid
            } else {
                RelayState::Solar
            }) ==> {
                &&& run is Some
                &&& run->0.target == if grid {
                    Network::Grid
                } else {
                    Network::Solar
                }
                &&& run->0.settle == 2_000
            }
        }),
{
    if !same_text(decision.reason, "emergency_low_voltage") && is_override_running(auto, now) {
        return None;
    }
    let target: Network = match network_of(decision.action) {
        Some(target) => target,
        None => {
            return None;
        },
    };
    if same_text(decision.reason, "eod_recharge") {
        auto.eod_lockout = true;
    }
    if is_on_target(relay.current_state(), target) {
        None
    } else {
        Some(relay.switch_to(target, SWITCH_AUTO_DELAY))
    }
}

/// Whether a switch back to the grid shows that solar failed.
pub open spec fn solar_failed(auto: AutoState, now: Instant) -> bool {
    within(auto.last_solar_attempt_at, now, SOLAR_FAIL_WINDOW)
}

/// The automatic changeover with one more failure of solar.
pub open spec fn with_failure(auto: AutoState) -> AutoState {
    let failures = minutes_of(true, auto.solar_failed_attempts_today);
    AutoState {
        solar_failed_attempts_today: failures,
        solar_lockout: auto.solar_lockout || failures >= SOLAR_LOCKOUT_AFTER,
        ..auto
    }
}

/// The automatic changeover after an attempt to carry a decision out.
pub open spec fn auto_after_switch(
    auto: AutoState,
    reason: Seq<char>,
    new_state: RelayState,
    now: Instant,
    succeeded: bool,
) -> AutoState {
    let switched = AutoState { last_switch_at: Some(now), ..auto };
    if succeeded && reason == "voltage_recovered"@ && new_state == RelayState::Solar {
        AutoState { last_solar_attempt_at: Some(now), ..switched }
    } else if succeeded && reason == "voltage_low_sustained"@ && new_state == RelayState::Grid
        && solar_failed(auto, now) {
        with_failure(switched)
    } else {
        switched
    }
}

/// Takes in how a changeover ended: publishes the state of the relays, keeps the
/// time, and keeps count of how solar fares. A changeover that succeeded is handed
/// back for the audit trail.
pub fn finish_switch(
    inner: &mut InnerState,
    decision: &Decision,
    now: Instant,
    relay: &RelayController,
    outcome: Result<(), RelayError>,
) -> (event: Option<RelayEvent>)
    ensures
        *final(inner) == (InnerState {
            published_state: relay@,
            auto: auto_after_switch(
                old(inner).auto,
                decision.reason@,
                relay@,
                now,
                outcome is Ok,
            ),
            ..*old(inner)
        }),
        match event {
            Some(event) => outcome is Ok && event.state@ == relay@.spec_name() && event.reason@
                == "auto:"@ + decision.reason@,
            None => outcome is Err,
        },
{
    let new_state: RelayState = relay.current_state();
    inner.published_state = new_state;
    inner.auto.last_switch_at = Some(now);
    if outcome.is_err() {
        return None;
    }
    if same_text(decision.reason, "voltage_recovered") && new_state == RelayState::Solar {
        inner.auto.last_solar_attempt_at = Some(now);
    } else if same_text(decision.reason, "voltage_low_sustained") && new_state == RelayState::Grid {
        if is_within(inner.auto.last_solar_attempt_at, now, SOLAR_FAIL_WINDOW) {
            inner.auto.solar_failed_attempts_today =
            inner.auto.solar_failed_attempts_today.saturating_add(1);
            if inner.auto.solar_failed_attempts_today >= SOLAR_LOCKOUT_AFTER {
                inner.auto.solar_lockout = true;
            }
        }
    }
    let mut reason: String = "auto:".to_owned();
    reason.append(decision.reason);
    Some(RelayEvent { state: new_state.name(), reason })
}

} // verus!
