//! The automatic changeover between grid and solar.
//!
//! Once a minute the unit weighs the battery voltage, the time of day and the
//! weather. The emergency rule comes first and holds in every mode: with the
//! automatic changeover off, without a database, and right after another
//! changeover.

use vstd::prelude::*;
use vstd::string::*;

use crate::clock::{Instant, NANOS_PER_SEC};
use crate::db::ForecastDay;
use crate::decimal::{decimal_text, push_decimal, Micro};
use crate::relay::RelayState;
use crate::state::AutoState;
use crate::text::{decimal_digits, push_number};

verus! {

// ---------------------------------------------------------------------------
// Settings, for a 24 V lead battery whose charger floats at 27.2 V
// ---------------------------------------------------------------------------
/// Under this voltage the load goes to the grid at once.
pub const V_EMERGENCY: Micro = 24_800_000;

/// Under this voltage, held for `V_LOW_MIN_MINUTES`, the load goes to the grid.
pub const V_LOW: Micro = 25_200_000;

/// Minutes under `V_LOW` before the load goes to the grid.
pub const V_LOW_MIN_MINUTES: u32 = 3;

/// From this voltage on, held for `V_RECOVER_MIN_MINUTES`, solar is allowed.
pub const V_RECOVER: Micro = 26_200_000;

/// Minutes at `V_RECOVER` or above before solar is allowed.
pub const V_RECOVER_MIN_MINUTES: u32 = 5;

/// From this voltage on the charger is taken to float: the battery is full.
pub const V_FLOAT: Micro = 27_200_000;

/// Minutes at `V_FLOAT` or above before the battery counts as full.
pub const V_FLOAT_MIN_MINUTES: u32 = 10;

/// The end-of-day window opens this many seconds before sunset.
pub const EOD_OFFSET: i64 = 10_800;

/// Seconds after a changeover during which no other is made, but in an
/// emergency. What the user chose by hand stands for as long.
pub const MIN_SWITCH_GAP: i64 = 600;

/// A return to the grid within this many seconds after one to solar counts as a
/// failure of solar.
pub const SOLAR_FAIL_WINDOW: i64 = 900;

/// Failures in a day that lock solar out.
pub const SOLAR_LOCKOUT_AFTER: u32 = 2;

/// From this cloud cover on, with little irradiance, solar is not tried.
pub const CLOUD_HIGH_PCT: Micro = 80_000_000;

/// Under this irradiance, with many clouds, solar is not tried.
pub const RADIATION_LOW_W: Micro = 200_000_000;

/// Seconds after which a weather sample no longer counts.
pub const WEATHER_MAX_AGE: u64 = 1_800;

/// Seconds between two decisions.
pub const TICK: u64 = 60;

/// Rows of the live buffer that the voltage at rest is taken from.
pub const REST_WINDOW: usize = 300;

// ---------------------------------------------------------------------------
// State of charge
// ---------------------------------------------------------------------------
/// The point at `v` on the line through `(v0, s0)` and `(v1, s1)`, rounded down.
pub open spec fn on_line(v: int, v0: int, s0: int, v1: int, s1: int) -> int {
    s0 + (v - v0) * (s1 - s0) / (v1 - v0)
}

/// The state of charge at a voltage: straight lines between measured points,
/// nothing below the first and full above the last.
pub open spec fn charge_at(v: int) -> int {
    if v <= 23_600_000 {
        0
    } else if v >= 27_200_000 {
        100_000_000
    } else if v <= 24_400_000 {
        on_line(v, 23_600_000, 0, 24_400_000, 30_000_000)
    } else if v <= 24_800_000 {
        on_line(v, 24_400_000, 30_000_000, 24_800_000, 50_000_000)
    } else if v <= 25_000_000 {
        on_line(v, 24_800_000, 50_000_000, 25_000_000, 60_000_000)
    } else if v <= 25_600_000 {
        on_line(v, 25_000_000, 60_000_000, 25_600_000, 75_000_000)
    } else if v <= 26_400_000 {
        on_line(v, 25_600_000, 75_000_000, 26_400_000, 90_000_000)
    } else {
        on_line(v, 26_400_000, 90_000_000, 27_200_000, 100_000_000)
    }
}

/// A point of the curve that the state of charge follows.
struct ChargePoint {
    volts: Micro,
    percent: Micro,
}

/// Reads the charge off the line between two points.
fn between(v: Micro, low: ChargePoint, high: ChargePoint) -> (percent: Micro)
    requires
        0 <= low.volts <= v <= high.volts <= 100_000_000,
        low.volts < high.volts,
        high.volts - low.volts <= 1_000_000,
        0 <= low.percent <= high.percent <= 100_000_000,
    ensures
        percent == on_line(
            v as int,
            low.volts as int,
            low.percent as int,
            high.volts as int,
            high.percent as int,
        ),
{
    let run: i64 = v - low.volts;
    let rise: i64 = high.percent - low.percent;
    let width: i64 = high.volts - low.volts;
    assert(0 <= run * rise <= 1_000_000 * 100_000_000) by (nonlinear_arith)
        requires
            0 <= run <= 1_000_000,
            0 <= rise <= 100_000_000,
    ;
    let product: i64 = run * rise;
    assert(0 <= product / width <= product) by (nonlinear_arith)
        requires
            product >= 0,
            width > 0,
    ;
    low.percent + product / width
}

/// Rough state of charge, in millionths of a percent, from the battery voltage.
pub fn soc_from_voltage(v: Micro) -> (percent: Micro)
    ensures
        percent == charge_at(v as int),
{
    if v <= 23_600_000 {
        return 0;
    }
    if v >= 27_200_000 {
        return 100_000_000;
    }
    let p0 = ChargePoint { volts: 23_600_000, percent: 0 };
    let p1 = ChargePoint { volts: 24_400_000, percent: 30_000_000 };
    let p2 = ChargePoint { volts: 24_800_000, percent: 50_000_000 };
    let p3 = ChargePoint { volts: 25_000_000, percent: 60_000_000 };
    let p4 = ChargePoint { volts: 25_600_000, percent: 75_000_000 };
    let p5 = ChargePoint { volts: 26_400_000, percent: 90_000_000 };
    let p6 = ChargePoint { volts: 27_200_000, percent: 100_000_000 };
    if v <= p1.volts {
        between(v, p0, p1)
    } else if v <= p2.volts {
        between(v, p1, p2)
    } else if v <= p3.volts {
        between(v, p2, p3)
    } else if v <= p4.volts {
        between(v, p3, p4)
    } else if v <= p5.volts {
        between(v, p4, p5)
    } else {
        between(v, p5, p6)
    }
}

// ---------------------------------------------------------------------------
// The decision
// ---------------------------------------------------------------------------
/// What a decision asks for.
#[derive(Debug, Clone, Copy, PartialEq, Eq, Structural)]
pub enum Action {
    /// No changeover.
    Hold,
    /// Put the load on the grid.
    SwitchToGrid,
    /// Put the load on solar.
    SwitchToSolar,
}

/// A decision and why it was taken.
#[derive(Debug, Clone, PartialEq)]
pub struct Decision {
    pub action: Action,
    /// Stable identifier of the rule that decided, for storage and clients.
    pub reason: &'static str,
    /// Short sentence for people.
    pub message: String,
}

/// What a decision says.
pub struct Verdict {
    pub action: Action,
    pub reason: Seq<char>,
    pub message: Seq<char>,
}

impl View for Decision {
    type V = Verdict;

    open spec fn view(&self) -> Verdict {
        Verdict { action: self.action, reason: self.reason@, message: self.message@ }
    }
}

/// What a decision is taken from, besides the state of the automatic changeover.
#[derive(Debug, Clone, Copy)]
pub struct DecisionInputs {
    pub now: Instant,
    pub current_relay: RelayState,
    /// The battery voltage right now.
    pub voltage_inst: Option<Micro>,
    /// The highest battery voltage of the last five minutes.
    pub voltage_max5min: Option<Micro>,
    /// Sunrise and sunset today, where they are known.
    pub today_sunrise: Option<Instant>,
    pub today_sunset: Option<Instant>,
    /// Irradiation forecast for tomorrow, in millionths of a kWh/m2.
    pub tomorrow_radiation_kwh: Option<Micro>,
    /// Cloud cover now, in millionths of a percent.
    pub current_cloud_pct: Option<Micro>,
    /// Irradiance now, in millionths of a W/m2.
    pub current_radiation_w: Option<Micro>,
}

/// The voltage under which the end-of-day recharge begins: the less sun tomorrow,
/// the higher, and 0.2 V more where the battery did not float today.
pub open spec fn recharge_below(tomorrow_kwh: Option<Micro>, float_reached: bool) -> int {
    let base: int = match tomorrow_kwh {
        Some(kwh) => if kwh >= 4_000_000 {
            26_300_000
        } else if kwh >= 2_000_000 {
            26_700_000
        } else {
            27_000_000
        },
        None => 26_700_000,
    };
    if float_reached {
        base
    } else {
        base + 200_000
    }
}

/// The voltage under which the end-of-day recharge begins.
pub fn eod_threshold(
    tomorrow_radiation_kwh: Option<Micro>,
    float_reached_today: bool,
) -> (threshold: Micro)
    ensures
        threshold == recharge_below(tomorrow_radiation_kwh, float_reached_today),
{
    let base: Micro = match tomorrow_radiation_kwh {
        Some(kwh) => if kwh >= 4_000_000 {
            26_300_000
        } else if kwh >= 2_000_000 {
            26_700_000
        } else {
            27_000_000
        },
        None => 26_700_000,
    };
    if float_reached_today {
        base
    } else {
        base + 200_000
    }
}

/// Whether the battery is so low that nothing else counts.
pub open spec fn is_emergency(inputs: DecisionInputs) -> bool {
    inputs.voltage_inst matches Some(v) && v < V_EMERGENCY
}

/// Whether less than `secs` seconds have passed since a point in time.
pub open spec fn within(since: Option<Instant>, now: Instant, secs: i64) -> bool {
    since matches Some(t) && now.spec_elapsed_since(t) < secs * 1_000_000_000
}

/// Whether the relays changed over too recently to do so again.
pub open spec fn is_too_soon(auto: AutoState, inputs: DecisionInputs) -> bool {
    within(auto.last_switch_at, inputs.now, MIN_SWITCH_GAP)
}

/// Whether what the user chose by hand still stands.
pub open spec fn override_runs(auto: AutoState, now: Instant) -> bool {
    auto.manual_override_until matches Some(until) && !until.spec_not_after(now)
}

/// Whether what the user chose by hand holds a decision back.
pub open spec fn is_overridden(auto: AutoState, inputs: DecisionInputs) -> bool {
    override_runs(auto, inputs.now)
}

/// When the end-of-day window before a sunset opens.
pub open spec fn window_start(sunset: Instant) -> Instant {
    sunset.spec_earlier_by(EOD_OFFSET)
}

/// Whether the end-of-day window is open.
pub open spec fn in_eod_window(inputs: DecisionInputs) -> bool {
    inputs.today_sunset matches Some(sunset) && window_start(sunset).spec_not_after(inputs.now)
}

/// The voltage that the end-of-day rule goes by; an unknown one counts as zero.
pub open spec fn eod_voltage(inputs: DecisionInputs) -> int {
    match inputs.voltage_max5min {
        Some(v) => v as int,
        None => 0,
    }
}

/// Whether the battery must be recharged before the night.
pub open spec fn wants_recharge(auto: AutoState, inputs: DecisionInputs) -> bool {
    &&& in_eod_window(inputs)
    &&& !auto.eod_lockout
    &&& eod_voltage(inputs) < recharge_below(
        inputs.tomorrow_radiation_kwh,
        auto.float_reached_today,
    )
}

/// Whether the battery has been low for too long while off the grid.
pub open spec fn wants_relief(auto: AutoState, inputs: DecisionInputs) -> bool {
    auto.low_voltage_minutes >= V_LOW_MIN_MINUTES && inputs.current_relay != RelayState::Grid
}

/// Whether the sun is up and the end-of-day window not open yet. Where sunrise
/// or sunset is unknown, the hour is no obstacle.
pub open spec fn is_solar_time(inputs: DecisionInputs) -> bool {
    match (inputs.today_sunrise, inputs.today_sunset) {
        (Some(sunrise), Some(sunset)) => sunrise.spec_not_after(inputs.now)
            && inputs.now.spec_not_after(window_start(sunset)),
        _ => true,
    }
}

/// Whether the load may go back to solar.
pub open spec fn wants_solar(auto: AutoState, inputs: DecisionInputs) -> bool {
    &&& !auto.eod_lockout
    &&& !auto.solar_lockout
    &&& auto.recover_voltage_minutes >= V_RECOVER_MIN_MINUTES
    &&& is_solar_time(inputs)
    &&& inputs.current_relay != RelayState::Solar
}

/// Whether the sky is known to be too dull for solar.
pub open spec fn is_dull(inputs: DecisionInputs) -> bool {
    &&& inputs.current_cloud_pct matches Some(cloud)
    &&& inputs.current_radiation_w matches Some(rad)
    &&& cloud >= CLOUD_HIGH_PCT
    &&& rad < RADIATION_LOW_W
}

/// To the grid, or nothing where the load is there already.
pub open spec fn to_grid(inputs: DecisionInputs) -> Action {
    if inputs.current_relay == RelayState::Grid {
        Action::Hold
    } else {
        Action::SwitchToGrid
    }
}

/// What the unit decides: the first rule that applies.
pub open spec fn verdict(auto: AutoState, inputs: DecisionInputs) -> Verdict {
    if is_emergency(inputs) {
        Verdict {
            action: to_grid(inputs),
            reason: "emergency_low_voltage"@,
            message: "Urgence : tension batterie "@ + decimal_text(
                inputs.voltage_inst->0 as int,
                2,
            ) + "V < "@ + decimal_text(V_EMERGENCY as int, 1) + "V"@,
        }
    } else if !auto.enabled {
        Verdict {
            action: Action::Hold,
            reason: "auto_disabled"@,
            message: "Auto-switch désactivé"@,
        }
    } else if is_overridden(auto, inputs) {
        Verdict {
            action: Action::Hold,
            reason: "manual_override"@,
            message: "Choix manuel respecté"@,
        }
    } else if wants_recharge(auto, inputs) {
        if inputs.current_relay != RelayState::Grid && is_too_soon(auto, inputs) {
            Verdict {
                action: Action::Hold,
                reason: "anti_oscillation"@,
                message: "EOD souhaité mais switch trop récent"@,
            }
        } else {
            Verdict {
                action: to_grid(inputs),
                reason: "eod_recharge"@,
                message: "Fin de journée : V "@ + decimal_text(eod_voltage(inputs), 2)
                    + "V < seuil "@ + decimal_text(
                    recharge_below(inputs.tomorrow_radiation_kwh, auto.float_reached_today),
                    1,
                ) + "V (recharge MPPT)"@,
            }
        }
    } else if wants_relief(auto, inputs) {
        if is_too_soon(auto, inputs) {
            Verdict {
                action: Action::Hold,
                reason: "anti_oscillation"@,
                message: "Tension basse mais switch trop récent"@,
            }
        } else {
            Verdict {
                action: Action::SwitchToGrid,
                reason: "voltage_low_sustained"@,
                message: "Tension < "@ + decimal_text(V_LOW as int, 1) + "V depuis "@
                    + decimal_digits(auto.low_voltage_minutes as nat) + " min"@,
            }
        }
    } else if wants_solar(auto, inputs) {
        if is_too_soon(auto, inputs) {
            Verdict {
                action: Action::Hold,
                reason: "anti_oscillation"@,
                message: "Reprise SOLAR souhaitée mais switch trop récent"@,
            }
        } else if is_dull(inputs) {
            Verdict {
                action: Action::Hold,
                reason: "weather_unfavorable"@,
                message: "Reprise Solar reportée — ciel couvert ("@ + decimal_text(
                    inputs.current_cloud_pct->0 as int,
                    0,
                ) + "%, "@ + decimal_text(inputs.current_radiation_w->0 as int, 0) + " W/m²)"@,
            }
        } else {
            Verdict {
                action: Action::SwitchToSolar,
                reason: "voltage_recovered"@,
                message: "Tension ≥ "@ + decimal_text(V_RECOVER as int, 1) + "V depuis "@
                    + decimal_digits(auto.recover_voltage_minutes as nat)
                    + " min — reprise solaire"@,
            }
        }
    } else {
        Verdict { action: Action::Hold, reason: "hold"@, message: "Conditions stables"@ }
    }
}

/// Whether less than `secs` seconds have passed since a point in time.
pub fn is_within(since: Option<Instant>, now: Instant, secs: i64) -> (b: bool)
    ensures
        b == within(since, now, secs),
{
    match since {
        Some(t) => now.elapsed_since(&t) < secs as i128 * NANOS_PER_SEC,
        None => false,
    }
}

/// Whether what the user chose by hand still stands.
pub fn is_override_running(auto: &AutoState, now: Instant) -> (b: bool)
    ensures
        b == override_runs(*auto, now),
{
    match auto.manual_override_until {
        Some(until) => !until.not_after(&now),
        None => false,
    }
}

/// Whether the sun is up and the end-of-day window not open yet.
pub fn in_solar_window(inputs: &DecisionInputs) -> (b: bool)
    ensures
        b == is_solar_time(*inputs),
{
    match (inputs.today_sunrise, inputs.today_sunset) {
        (Some(sunrise), Some(sunset)) => {
            sunrise.not_after(&inputs.now) && inputs.now.not_after(&sunset.earlier_by(EOD_OFFSET))
        },
        _ => true,
    }
}

/// Takes a decision. Nothing is changed and nothing outside is looked at.
pub fn decide(auto: &AutoState, inputs: &DecisionInputs) -> (decision: Decision)
    ensures
        decision@ == verdict(*auto, *inputs),
{
    // Rule 1: emergency, in every mode.
    if let Some(v) = inputs.voltage_inst {
        if v < V_EMERGENCY {
            let mut message: String = "Urgence : tension batterie ".to_owned();
            push_decimal(&mut message, v, 2);
            message.append("V < ");
            push_decimal(&mut message, V_EMERGENCY, 1);
            message.append("V");
            return Decision {
                action: if inputs.current_relay == RelayState::Grid {
                    Action::Hold
                } else {
                    Action::SwitchToGrid
                },
                reason: "emergency_low_voltage",
                message,
            };
        }
    }
    if !auto.enabled {
        return Decision {
            action: Action::Hold,
            reason: "auto_disabled",
            message: "Auto-switch désactivé".to_owned(),
        };
    }
    if is_override_running(auto, inputs.now) {
        return Decision {
            action: Action::Hold,
            reason: "manual_override",
            message: "Choix manuel respecté".to_owned(),
        };
    }
    let recent_switch: bool = is_within(auto.last_switch_at, inputs.now, MIN_SWITCH_GAP);

    // Rule 2: recharge at the end of the day.
    if let Some(sunset) = inputs.today_sunset {
        let eod_start: Instant = sunset.earlier_by(EOD_OFFSET);
        if eod_start.not_after(&inputs.now) && !auto.eod_lockout {
            let v: Micro = match inputs.voltage_max5min {
                Some(v) => v,
                None => 0,
            };
            let threshold: Micro = eod_threshold(
                inputs.tomorrow_radiation_kwh,
                auto.float_reached_today,
            );
            if v < threshold {
                let on_grid: bool = inputs.current_relay == RelayState::Grid;
                if !on_grid && recent_switch {
                    return Decision {
                        action: Action::Hold,
                        reason: "anti_oscillation",
                        message: "EOD souhaité mais switch trop récent".to_owned(),
                    };
                }
                let mut message: String = "Fin de journée : V ".to_owned();
                push_decimal(&mut message, v, 2);
                message.append("V < seuil ");
                push_decimal(&mut message, threshold, 1);
                message.append("V (recharge MPPT)");
                return Decision {
                    action: if on_grid {
                        Action::Hold
                    } else {
                        Action::SwitchToGrid
                    },
                    reason: "eod_recharge",
                    message,
                };
            }
        }
    }
    // Rule 3: low voltage for some minutes.
    if auto.low_voltage_minutes >= V_LOW_MIN_MINUTES && inputs.current_relay != RelayState::Grid {
        if recent_switch {
            return Decision {
                action: Action::Hold,
                reason: "anti_oscillation",
                message: "Tension basse mais switch trop récent".to_owned(),
            };
        }
        let mut message: String = "Tension < ".to_owned();
        push_decimal(&mut message, V_LOW, 1);
        message.append("V depuis ");
        push_number(&mut message, auto.low_voltage_minutes as u64);
        message.append(" min");
        return Decision {
            action: Action::SwitchToGrid,
            reason: "voltage_low_sustained",
            message,
        };
    }
    // Rule 4: back to solar.
    if !auto.eod_lockout && !auto.solar_lockout && auto.recover_voltage_minutes
        >= V_RECOVER_MIN_MINUTES && in_solar_window(inputs) && inputs.current_relay
        != RelayState::Solar {
        if recent_switch {
            return Decision {
                action: Action::Hold,
                reason: "anti_oscillation",
                message: "Reprise SOLAR souhaitée mais switch trop récent".to_owned(),
            };
        }
        // Missing weather is no obstacle.
        if let (Some(cloud), Some(rad)) = (inputs.current_cloud_pct, inputs.current_radiation_w) {
            if cloud >= CLOUD_HIGH_PCT && rad < RADIATION_LOW_W {
                let mut message: String = "Reprise Solar reportée — ciel couvert (".to_owned();
                push_decimal(&mut message, cloud, 0);
                message.append("%, ");
                push_decimal(&mut message, rad, 0);
                message.append(" W/m²)");
                return Decision {
                    action: Action::Hold,
                    reason: "weather_unfavorable",
                    message,
                };
            }
        }
        let mut message: String = "Tension ≥ ".to_owned();
        push_decimal(&mut message, V_RECOVER, 1);
        message.append("V depuis ");
        push_number(&mut message, auto.recover_voltage_minutes as u64);
        message.append(" min — reprise solaire");
        return Decision { action: Action::SwitchToSolar, reason: "voltage_recovered", message };
    }
    Decision { action: Action::Hold, reason: "hold", message: "Conditions stables".to_owned() }
}

// ---------------------------------------------------------------------------
// Today and tomorrow in a forecast
// ---------------------------------------------------------------------------
/// Whether the sun has risen on a day of the forecast.
pub open spec fn has_risen(day: ForecastDay, now: Instant) -> bool {
    day.sunrise matches Some(sunrise) && sunrise.spec_not_after(now)
}

/// The day whose sunrise was the last; the later entry where two are equal.
pub open spec fn latest_risen(forecast: Seq<ForecastDay>, now: Instant) -> Option<int>
    decreases forecast.len(),
{
    if forecast.len() == 0 {
        None
    } else {
        let here = forecast.len() - 1;
        match latest_risen(forecast.drop_last(), now) {
            None => if has_risen(forecast[here], now) {
                Some(here)
            } else {
                None
            },
            Some(best) => if has_risen(forecast[here], now)
                && forecast[best].sunrise->0.spec_not_after(forecast[here].sunrise->0) {
                Some(here)
            } else {
                Some(best)
            },
        }
    }
}

/// The entry for today: that of the last sunrise, or the first where the sun has
/// risen on none.
pub open spec fn today_in(forecast: Seq<ForecastDay>, now: Instant) -> Option<int> {
    match latest_risen(forecast, now) {
        Some(best) => Some(best),
        None => if forecast.len() > 0 {
            Some(0)
        } else {
            None
        },
    }
}

/// The first entry for a date, from `start` on.
pub open spec fn entry_for(forecast: Seq<ForecastDay>, date: int, start: int) -> Option<int>
    decreases forecast.len() - start,
{
    if start >= forecast.len() {
        None
    } else if forecast[start].date == date {
        Some(start)
    } else {
        entry_for(forecast, date, start + 1)
    }
}

/// The entry for the day after today.
pub open spec fn tomorrow_in(forecast: Seq<ForecastDay>, now: Instant) -> Option<int> {
    match today_in(forecast, now) {
        Some(today) => entry_for(forecast, forecast[today].date + 1, 0),
        None => None,
    }
}

/// The entry at a position.
pub open spec fn entry_at(forecast: Seq<ForecastDay>, position: Option<int>) -> Option<ForecastDay> {
    match position {
        Some(i) => Some(forecast[i]),
        None => None,
    }
}

/// The day of the last sunrise is an entry of the forecast, and the sun has risen
/// on it.
pub proof fn lemma_latest_risen_in_range(forecast: Seq<ForecastDay>, now: Instant)
    ensures
        latest_risen(forecast, now) matches Some(best) ==> 0 <= best < forecast.len() && has_risen(
            forecast[best],
            now,
        ),
    decreases forecast.len(),
{
    if forecast.len() > 0 {
        lemma_latest_risen_in_range(forecast.drop_last(), now);
    }
}

/// The position of the last sunrise.
fn find_latest_risen(forecast: &[ForecastDay], now: Instant) -> (position: Option<usize>)
    ensures
        match position {
            Some(i) => i < forecast@.len() && latest_risen(forecast@, now) == Some(i as int),
            None => latest_risen(forecast@, now) is None,
        },
{
    let mut best: Option<usize> = None;
    let mut i: usize = 0;
    assert(forecast@.take(0) =~= Seq::empty());
    while i < forecast.len()
        invariant
            i <= forecast@.len(),
            match best {
                Some(b) => b < i && latest_risen(forecast@.take(i as int), now) == Some(b as int)
                    && has_risen(forecast@[b as int], now),
                None => latest_risen(forecast@.take(i as int), now) is None,
            },
        decreases forecast@.len() - i,
    {
        assert(forecast@.take(i + 1).drop_last() =~= forecast@.take(i as int));
        if let Some(sunrise) = forecast[i].sunrise {
            if sunrise.not_after(&now) {
                let later: bool = match best {
                    None => true,
                    Some(b) => match forecast[b].sunrise {
                        Some(other) => other.not_after(&sunrise),
                        None => false,
                    },
                };
                if later {
                    best = Some(i);
                }
            }
        }
        i = i + 1;
    }
    assert(forecast@.take(forecast@.len() as int) =~= forecast@);
    best
}

/// The position of the first entry for a date.
fn find_entry(forecast: &[ForecastDay], date: i64) -> (position: Option<usize>)
    ensures
        match position {
            Some(i) => i < forecast@.len() && entry_for(forecast@, date as int, 0) == Some(i as int),
            None => entry_for(forecast@, date as int, 0) is None,
        },
{
    let mut i: usize = 0;
    while i < forecast.len()
        invariant
            i <= forecast@.len(),
            entry_for(forecast@, date as int, 0) == entry_for(forecast@, date as int, i as int),
        decreases forecast@.len() - i,
    {
        if forecast[i].date as i64 == date {
            return Some(i);
        }
        i = i + 1;
    }
    None
}

/// Finds today, the entry of the last sunrise, and the entry of the day after.
/// Where the sun has risen on no entry, today is the first; an empty forecast has
/// neither.
pub fn select_today_tomorrow<'a>(forecast: &'a [ForecastDay], now: Instant) -> (days: (
    Option<&'a ForecastDay>,
    Option<&'a ForecastDay>,
))
    ensures
        match days.0 {
            Some(day) => entry_at(forecast@, today_in(forecast@, now)) == Some(*day),
            None => today_in(forecast@, now) is None,
        },
        match days.1 {
            Some(day) => entry_at(forecast@, tomorrow_in(forecast@, now)) == Some(*day),
            None => tomorrow_in(forecast@, now) is None,
        },
{
    let position: Option<usize> = match find_latest_risen(forecast, now) {
        Some(i) => Some(i),
        None => if forecast.len() > 0 {
            Some(0)
        } else {
            None
        },
    };
    match position {
        None => (None, None),
        Some(i) => {
            let today: &ForecastDay = &forecast[i];
            match find_entry(forecast, today.date as i64 + 1) {
                Some(j) => (Some(today), Some(&forecast[j])),
                None => (Some(today), None),
            }
        },
    }
}

} // verus!
