//! What a tick makes of the measurements, and what follows a changeover, field by
//! field. Voltages are in millionths of a volt.

use vstd::prelude::*;

use crate::auto::{
    charge_at, entry_at, latest_risen, lemma_latest_risen_in_range, today_in, tomorrow_in, Action,
};
use crate::auto_laws::{law_today_is_last_sunrise, law_tomorrow_follows_today, lemma_latest_risen_is_latest};
use crate::clock::Instant;
use crate::db::{ForecastDay, WeatherSample};
use crate::decimal::Micro;
use crate::decision_laws::evening_limit;
use crate::relay::{run_start, state_on, RelayState};
use crate::routes::auto_after_manual;
use crate::state::{
    auto_at_boot, highest, recent, AutoState, InnerState, Network, SensorReading,
};
use crate::state_laws::{law_first_sensor_counts, law_highest_is_maximum, law_recent_is_the_end};
use crate::tick::{
    auto_after_look, auto_after_switch, auto_before_switch, inputs_of, seen_after, surroundings,
    target_of, target_still_wanted, voltage_at_rest, voltage_now, Surroundings, SWITCH_AUTO_DELAY,
};

verus! {

// ---------------------------------------------------------------------------
// The forecast
// ---------------------------------------------------------------------------
/// The entry at `t` is that of today: the sun has risen on it, on no entry later, and on
/// none further back at the same time; or it is the first and the sun has risen on none.
pub open spec fn is_today(forecast: Seq<ForecastDay>, now: Instant, t: int) -> bool {
    &&& 0 <= t < forecast.len()
    &&& sun_is_up(forecast[t], now) || t == 0
    &&& forall|i: int|
        0 <= i < forecast.len() && sun_is_up(#[trigger] forecast[i], now) ==> {
            &&& sun_is_up(forecast[t], now)
            &&& forecast[i].sunrise->0.spec_not_after(forecast[t].sunrise->0)
            &&& forecast[t].sunrise == forecast[i].sunrise ==> i <= t
        }
}

/// The sunrise of a day is known and past.
pub open spec fn sun_is_up(day: ForecastDay, now: Instant) -> bool {
    day.sunrise is Some && day.sunrise->0.spec_not_after(now)
}

/// A tick goes by today's sunrise and sunset and by the weather at hand. For tomorrow
/// it goes by the irradiation of the first entry dated one day after today's, by none
/// where there is no such entry, and never by that of today.
pub proof fn law_tick_looks_at_today_and_tomorrow(
    forecast: Seq<ForecastDay>,
    weather: Option<WeatherSample>,
    now: Instant,
    t: int,
)
    requires
        is_today(forecast, now, t),
    ensures
        surroundings(forecast, weather, now).today_sunrise == forecast[t].sunrise,
        surroundings(forecast, weather, now).today_sunset == forecast[t].sunset,
        forall|m: int|
            0 <= m < forecast.len() && (#[trigger] forecast[m]).date == forecast[t].date + 1 && (
            forall|j: int| 0 <= j < m ==> (#[trigger] forecast[j]).date != forecast[t].date + 1)
                ==> surroundings(forecast, weather, now).tomorrow_radiation_kwh
                == forecast[m].shortwave_sum_kwh,
        (forall|j: int|
            0 <= j < forecast.len() ==> (#[trigger] forecast[j]).date != forecast[t].date + 1)
            ==> surroundings(forecast, weather, now).tomorrow_radiation_kwh is None,
        entry_at(forecast, today_in(forecast, now)) == Some(forecast[t]),
        forall|m: int|
            0 <= m < forecast.len() && (#[trigger] forecast[m]).date == forecast[t].date + 1 && (
            forall|j: int| 0 <= j < m ==> (#[trigger] forecast[j]).date != forecast[t].date + 1)
                ==> entry_at(forecast, tomorrow_in(forecast, now)) == Some(forecast[m]),
{
    lemma_today_is_unique(forecast, now, t);
    law_tomorrow_follows_today(forecast, now);
}

/// Without a forecast there is neither sunrise nor sunset nor tomorrow.
pub proof fn law_tick_without_forecast(weather: Option<WeatherSample>, now: Instant)
    ensures
        surroundings(Seq::empty(), weather, now).today_sunrise is None,
        surroundings(Seq::empty(), weather, now).today_sunset is None,
        surroundings(Seq::empty(), weather, now).tomorrow_radiation_kwh is None,
{
}

/// The weather at hand is taken as it is, and nothing stands in for what is missing.
pub proof fn law_tick_takes_the_weather(
    forecast: Seq<ForecastDay>,
    sample: WeatherSample,
    now: Instant,
)
    ensures
        surroundings(forecast, Some(sample), now).cloud_pct == sample.cloud_cover_pct,
        surroundings(forecast, Some(sample), now).radiation_w == sample.shortwave_wm2,
        surroundings(forecast, None, now).cloud_pct is None,
        surroundings(forecast, None, now).radiation_w is None,
{
}

proof fn lemma_today_is_unique(forecast: Seq<ForecastDay>, now: Instant, t: int)
    requires
        is_today(forecast, now, t),
    ensures
        today_in(forecast, now) == Some(t),
{
    lemma_latest_risen_in_range(forecast, now);
    law_today_is_last_sunrise(forecast, now, t);
    if latest_risen(forecast, now) is Some {
        let best = latest_risen(forecast, now)->0;
        assert(sun_is_up(forecast[best], now));
        lemma_latest_risen_is_latest(forecast, now, t);
        assert(forecast[best].sunrise->0 == forecast[t].sunrise->0);
        assert(forecast[best].sunrise == forecast[t].sunrise);
    } else if sun_is_up(forecast[t], now) {
        lemma_latest_risen_is_latest(forecast, now, t);
    }
}

// ---------------------------------------------------------------------------
// The measurements
// ---------------------------------------------------------------------------
/// What a sensor at the address reports: the first reading with that address, none where
/// no reading has it.
pub open spec fn is_reading_at(
    sensors: Seq<SensorReading>,
    address: u8,
    voltage: Option<Micro>,
) -> bool {
    match voltage {
        Some(v) => exists|i: int|
            0 <= i < sensors.len() && (#[trigger] sensors[i]).address == address
                && sensors[i].bus_voltage_v == v && (forall|j: int|
                0 <= j < i ==> (#[trigger] sensors[j]).address != address),
        None => forall|i: int| 0 <= i < sensors.len() ==> (#[trigger] sensors[i]).address != address,
    }
}

/// The highest measurement among the last `rows` entries of a column, none where they
/// hold none.
pub open spec fn is_peak_of_last(
    column: Seq<Option<Micro>>,
    rows: int,
    peak: Option<Micro>,
) -> bool {
    match peak {
        Some(top) => {
            &&& exists|i: int|
                column.len() - rows <= i < column.len() && 0 <= i && #[trigger] column[i] == Some(top)
            &&& forall|i: int|
                column.len() - rows <= i < column.len() && 0 <= i ==> (
                #[trigger] column[i] matches Some(v) ==> v <= top)
        },
        None => forall|i: int|
            column.len() - rows <= i < column.len() && 0 <= i ==> #[trigger] column[i] is None,
    }
}

/// One more, up to the highest number that there is.
pub open spec fn one_more(n: u32) -> int {
    if n == u32::MAX {
        n as int
    } else {
        n + 1
    }
}

/// A tick counts the minutes by the voltage at rest, the peak of the last 300 rows, or by
/// zero where there is none: under 25.2 V a low minute, from 26.2 V a recovered one, from
/// 27.2 V a floating one; a minute of another kind clears the counter, and a new day
/// that of the float. Ten floating minutes in a row set the float flag.
pub proof fn law_tick_counts_minutes(
    inner: InnerState,
    seen: Option<Instant>,
    now: Instant,
    around: Surroundings,
    rest: Option<Micro>,
)
    requires
        is_peak_of_last(inner.live.sensor_grid_v@, 300, rest),
    ensures
        ({
            let auto = auto_after_look(inner, seen, now, around);
            let v = match rest {
                Some(v) => v as int,
                None => 0,
            };
            let floated = if is_new_day(seen, around.today_sunrise, now) {
                0u32
            } else {
                inner.auto.float_voltage_minutes
            };
            &&& auto.low_voltage_minutes == if v < 25_200_000 {
                one_more(inner.auto.low_voltage_minutes)
            } else {
                0
            }
            &&& auto.recover_voltage_minutes == if v >= 26_200_000 {
                one_more(inner.auto.recover_voltage_minutes)
            } else {
                0
            }
            &&& auto.float_voltage_minutes == if v >= 27_200_000 {
                one_more(floated)
            } else {
                0
            }
            &&& auto.float_reached_today <==> (inner.auto.float_reached_today && !is_new_day(
                seen,
                around.today_sunrise,
                now,
            )) || (v >= 27_200_000 && one_more(floated) >= 10)
        }),
{
    lemma_rest(inner, rest);
}

/// Today's sunrise is past and was not seen by an earlier tick.
pub open spec fn is_new_day(
    seen: Option<Instant>,
    sunrise: Option<Instant>,
    now: Instant,
) -> bool {
    &&& sunrise is Some
    &&& sunrise->0.spec_not_after(now)
    &&& !(seen matches Some(last) && last == sunrise->0)
}

/// A new day forgets the lockouts and the failures of the day before, once per sunrise;
/// any other tick leaves them alone.
pub proof fn law_new_day_forgets_the_old(
    inner: InnerState,
    seen: Option<Instant>,
    now: Instant,
    around: Surroundings,
)
    ensures
        ({
            let auto = auto_after_look(inner, seen, now, around);
            if is_new_day(seen, around.today_sunrise, now) {
                &&& !auto.eod_lockout
                &&& !auto.solar_lockout
                &&& auto.solar_failed_attempts_today == 0
                &&& auto.last_solar_attempt_at is None
                &&& seen_after(seen, around.today_sunrise, now) == around.today_sunrise
            } else {
                &&& auto.eod_lockout == inner.auto.eod_lockout
                &&& auto.solar_lockout == inner.auto.solar_lockout
                &&& auto.solar_failed_attempts_today == inner.auto.solar_failed_attempts_today
                &&& auto.last_solar_attempt_at == inner.auto.last_solar_attempt_at
                &&& seen_after(seen, around.today_sunrise, now) == seen
            }
        }),
{
}

/// A tick leaves alone what others decide: whether the changeover is on, the times of
/// changeovers and of choices by hand, and the record of the last decision.
pub proof fn law_tick_leaves_the_rest_alone(
    inner: InnerState,
    seen: Option<Instant>,
    now: Instant,
    around: Surroundings,
)
    ensures
        ({
            let auto = auto_after_look(inner, seen, now, around);
            &&& auto.enabled == inner.auto.enabled
            &&& auto.last_switch_at == inner.auto.last_switch_at
            &&& auto.manual_override_until == inner.auto.manual_override_until
            &&& auto.last_decision == inner.auto.last_decision
        }),
{
}

/// A tick shows the charge at the voltage at rest, else at the voltage right now, else
/// what was shown before; and, where the sunset is known, when the evening begins and
/// its threshold, which goes by tomorrow's irradiation and the float flag as it stood
/// before this minute was counted.
pub proof fn law_tick_shows(
    inner: InnerState,
    seen: Option<Instant>,
    now: Instant,
    around: Surroundings,
    rest: Option<Micro>,
    right_now: Option<Micro>,
)
    requires
        is_peak_of_last(inner.live.sensor_grid_v@, 300, rest),
        is_reading_at(inner.sensors@, 0x40, right_now),
    ensures
        ({
            let auto = auto_after_look(inner, seen, now, around);
            let floated = inner.auto.float_reached_today && !is_new_day(
                seen,
                around.today_sunrise,
                now,
            );
            &&& rest is Some ==> auto.soc_percent is Some && auto.soc_percent->0 == charge_at(
                rest->0 as int,
            )
            &&& rest is None && right_now is Some ==> auto.soc_percent is Some
                && auto.soc_percent->0 == charge_at(right_now->0 as int)
            &&& rest is None && right_now is None ==> auto.soc_percent == inner.auto.soc_percent
            &&& around.today_sunset is None ==> auto.eod_at is None && auto.eod_threshold_v is None
            &&& around.today_sunset is Some ==> {
                &&& auto.eod_at == Some(around.today_sunset->0.spec_earlier_by(10_800))
                &&& auto.eod_threshold_v is Some
                &&& auto.eod_threshold_v->0 == evening_limit(around.tomorrow_radiation_kwh, floated)
            }
        }),
{
    lemma_rest(inner, rest);
    lemma_right_now(inner, right_now);
    if rest is Some {
        crate::auto_laws::law_charge_is_monotone(rest->0 as int, rest->0 as int);
    }
    if right_now is Some {
        crate::auto_laws::law_charge_is_monotone(right_now->0 as int, right_now->0 as int);
    }
}

/// The decision of a tick is taken from what was measured and from the sky: the state of
/// the relays as published, the first reading at 0x40, the peak of the last 300 rows,
/// today's sunrise and sunset, tomorrow's irradiation and the weather.
pub proof fn law_tick_hands_over_what_it_saw(
    inner: InnerState,
    now: Instant,
    around: Surroundings,
    rest: Option<Micro>,
    right_now: Option<Micro>,
)
    requires
        is_peak_of_last(inner.live.sensor_grid_v@, 300, rest),
        is_reading_at(inner.sensors@, 0x40, right_now),
    ensures
        inputs_of(inner, now, around).now == now,
        inputs_of(inner, now, around).current_relay == inner.published_state,
        inputs_of(inner, now, around).voltage_inst == right_now,
        inputs_of(inner, now, around).voltage_max5min == rest,
        inputs_of(inner, now, around).today_sunrise == around.today_sunrise,
        inputs_of(inner, now, around).today_sunset == around.today_sunset,
        inputs_of(inner, now, around).tomorrow_radiation_kwh == around.tomorrow_radiation_kwh,
        inputs_of(inner, now, around).current_cloud_pct == around.cloud_pct,
        inputs_of(inner, now, around).current_radiation_w == around.radiation_w,
{
    lemma_rest(inner, rest);
    lemma_right_now(inner, right_now);
}

proof fn lemma_rest(inner: InnerState, rest: Option<Micro>)
    requires
        is_peak_of_last(inner.live.sensor_grid_v@, 300, rest),
    ensures
        voltage_at_rest(inner) == rest,
{
    let column = inner.live.sensor_grid_v@;
    let window = recent(column, 300);
    law_recent_is_the_end(column, 300);
    law_highest_is_maximum(window);
    let shift = column.len() - window.len();
    assert forall|i: int| 0 <= i < window.len() implies #[trigger] window[i] == column[i + shift] by {}
    assert forall|i: int| shift <= i < column.len() implies #[trigger] column[i] == window[i - shift] by {}
    match rest {
        Some(top) => {
            let i = choose|i: int|
                column.len() - 300 <= i < column.len() && 0 <= i && #[trigger] column[i] == Some(top);
            assert(window[i - shift] == Some(top));
            assert(highest(window) is Some);
            let found = highest(window)->0;
            let j = choose|j: int| 0 <= j < window.len() && #[trigger] window[j] == Some(found);
            assert(column[j + shift] == Some(found));
        },
        None => {
            if highest(window) is Some {
                let found = highest(window)->0;
                let j = choose|j: int| 0 <= j < window.len() && #[trigger] window[j] == Some(found);
                assert(column[j + shift] == Some(found));
            }
        },
    }
}

proof fn lemma_right_now(inner: InnerState, right_now: Option<Micro>)
    requires
        is_reading_at(inner.sensors@, 0x40, right_now),
    ensures
        voltage_now(inner) == right_now,
{
    law_first_sensor_counts(inner.sensors@, 0x40);
    let sensors = inner.sensors@;
    if right_now is Some {
        let i = choose|i: int|
            0 <= i < sensors.len() && (#[trigger] sensors[i]).address == 0x40
                && sensors[i].bus_voltage_v == right_now->0 && (forall|j: int|
                0 <= j < i ==> (#[trigger] sensors[j]).address != 0x40);
        assert(sensors[i].address == 0x40);
    }
}

// ---------------------------------------------------------------------------
// The charge
// ---------------------------------------------------------------------------
/// The measured points of the curve: a voltage and the charge at it, in millionths of a
/// percent.
pub open spec fn charge_points() -> Seq<(int, int)> {
    seq![
        (23_600_000, 0),
        (24_400_000, 30_000_000),
        (24_800_000, 50_000_000),
        (25_000_000, 60_000_000),
        (25_600_000, 75_000_000),
        (26_400_000, 90_000_000),
        (27_200_000, 100_000_000),
    ]
}

/// Between two neighbouring points the charge lies on the straight line through them, to
/// the millionth below; under the first it is nothing, over the last it is full.
pub proof fn law_charge_follows_the_points(v: int, k: int)
    requires
        0 <= k < 6,
    ensures
        charge_points()[k].0 <= v <= charge_points()[k + 1].0 ==> {
            let (v0, s0) = charge_points()[k];
            let (v1, s1) = charge_points()[k + 1];
            &&& charge_at(v) * (v1 - v0) <= s0 * (v1 - v0) + (v - v0) * (s1 - s0)
            &&& s0 * (v1 - v0) + (v - v0) * (s1 - s0) < (charge_at(v) + 1) * (v1 - v0)
        },
        v <= 23_600_000 ==> charge_at(v) == 0,
        v >= 27_200_000 ==> charge_at(v) == 100_000_000,
{
    let c = charge_at(v);
    let (v0, s0) = charge_points()[k];
    let (v1, s1) = charge_points()[k + 1];
    if v0 <= v <= v1 {
        if k == 0 {
            assert(c * 800000 <= 0 * 800000 + (v - 23600000) * 30000000 < (c + 1) * 800000);
        } else if k == 1 {
            assert(c * 400000 <= 30000000 * 400000 + (v - 24400000) * 20000000 < (c + 1) * 400000);
        } else if k == 2 {
            assert(c * 200000 <= 50000000 * 200000 + (v - 24800000) * 10000000 < (c + 1) * 200000);
        } else if k == 3 {
            assert(c * 600000 <= 60000000 * 600000 + (v - 25000000) * 15000000 < (c + 1) * 600000);
        } else if k == 4 {
            assert(c * 800000 <= 75000000 * 800000 + (v - 25600000) * 15000000 < (c + 1) * 800000);
        } else {
            assert(c * 800000 <= 90000000 * 800000 + (v - 26400000) * 10000000 < (c + 1) * 800000);
        }
        assert(c * (v1 - v0) <= s0 * (v1 - v0) + (v - v0) * (s1 - s0) < (c + 1) * (v1 - v0));
    }
}

// ---------------------------------------------------------------------------
// Carrying a decision out
// ---------------------------------------------------------------------------
/// An action names its network.
pub proof fn law_action_names_its_network()
    ensures
        target_of(Action::Hold) is None,
        target_of(Action::SwitchToGrid) == Some(Network::Grid),
        target_of(Action::SwitchToSolar) == Some(Network::Solar),
        state_on(Network::Grid) == RelayState::Grid,
        state_on(Network::Solar) == RelayState::Solar,
{
}

/// A decision is carried out when nothing stands against it: for every reason, where no
/// choice by hand runs at the time of the tick, a switch still leads to its network. A
/// choice that runs holds every reason back but the emergency, which always leads there.
pub proof fn law_every_decision_is_carried_out(
    auto: AutoState,
    action: Action,
    reason: Seq<char>,
    now: Instant,
)
    ensures
        ({
            let chosen = auto.manual_override_until is Some
                && !auto.manual_override_until->0.spec_not_after(now);
            let urgent = reason == "emergency_low_voltage"@;
            &&& !chosen || urgent ==> {
                &&& action == Action::SwitchToGrid ==> target_still_wanted(auto, action, reason, now)
                    == Some(Network::Grid)
                &&& action == Action::SwitchToSolar ==> target_still_wanted(
                    auto,
                    action,
                    reason,
                    now,
                ) == Some(Network::Solar)
            }
            &&& chosen && !urgent ==> target_still_wanted(auto, action, reason, now) is None
            &&& action == Action::Hold ==> target_still_wanted(auto, action, reason, now) is None
        }),
{
}

/// A changeover starts by opening both relays, for the network and the pause that were
/// asked for; the automatic one asks for two seconds.
pub proof fn law_changeover_starts_open(target: Network, settle: u64)
    ensures
        run_start(target, settle).target == target,
        run_start(target, settle).settle == settle,
        run_start(target, settle).phase is Opening,
        SWITCH_AUTO_DELAY == 2_000,
{
}

/// Before the relays move, the evening switch locks solar out, and no other does; nothing
/// else changes.
pub proof fn law_evening_switch_locks_solar_out(auto: AutoState, reason: Seq<char>)
    ensures
        reason == "eod_recharge"@ ==> auto_before_switch(auto, reason).eod_lockout,
        reason != "eod_recharge"@ ==> auto_before_switch(auto, reason).eod_lockout
            == auto.eod_lockout,
        auto_before_switch(auto, reason) == (AutoState {
            eod_lockout: auto_before_switch(auto, reason).eod_lockout,
            ..auto
        }),
{
}

/// Every end of a changeover keeps its time. A return to solar that succeeded is noted;
/// a way back to the grid for low voltage within 15 minutes of one counts as a failure,
/// and the second failure locks solar out. Nothing else is noted or counted, and
/// everything else stays.
pub proof fn law_changeover_is_noted(
    auto: AutoState,
    reason: Seq<char>,
    new_state: RelayState,
    now: Instant,
    succeeded: bool,
)
    ensures
        ({
            let after = auto_after_switch(auto, reason, new_state, now, succeeded);
            let returned = succeeded && reason == "voltage_recovered"@ && new_state
                == RelayState::Solar;
            let failed = succeeded && reason == "voltage_low_sustained"@ && new_state
                == RelayState::Grid && auto.last_solar_attempt_at is Some
                && now.spec_elapsed_since(auto.last_solar_attempt_at->0) < 900_000_000_000;
            &&& after.last_switch_at == Some(now)
            &&& returned ==> after.last_solar_attempt_at == Some(now)
            &&& !returned ==> after.last_solar_attempt_at == auto.last_solar_attempt_at
            &&& failed ==> after.solar_failed_attempts_today == one_more(
                auto.solar_failed_attempts_today,
            )
            &&& !failed ==> after.solar_failed_attempts_today == auto.solar_failed_attempts_today
            &&& after.solar_lockout <==> auto.solar_lockout || (failed
                && auto.solar_failed_attempts_today >= 1)
            &&& after == (AutoState {
                last_switch_at: after.last_switch_at,
                last_solar_attempt_at: after.last_solar_attempt_at,
                solar_failed_attempts_today: after.solar_failed_attempts_today,
                solar_lockout: after.solar_lockout,
                ..auto
            })
        }),
{
    reveal_strlit("voltage_recovered");
    reveal_strlit("voltage_low_sustained");
    assert("voltage_recovered"@.len() != "voltage_low_sustained"@.len());
}

/// A changeover by hand keeps its time and stands for ten minutes; nothing else changes.
pub proof fn law_manual_changeover_is_noted(auto: AutoState, now: Instant)
    ensures
        auto_after_manual(auto, now).last_switch_at == Some(now),
        auto_after_manual(auto, now).manual_override_until == Some(now.spec_later_by(600)),
        auto_after_manual(auto, now) == (AutoState {
            last_switch_at: auto_after_manual(auto, now).last_switch_at,
            manual_override_until: auto_after_manual(auto, now).manual_override_until,
            ..auto
        }),
{
}

/// The unit boots with the automatic changeover on, nothing locked out, nothing counted,
/// nothing shown and no changeover known.
pub proof fn law_boot_knows_nothing()
    ensures
        auto_at_boot().enabled,
        !auto_at_boot().float_reached_today,
        !auto_at_boot().eod_lockout,
        !auto_at_boot().solar_lockout,
        auto_at_boot().solar_failed_attempts_today == 0,
        auto_at_boot().low_voltage_minutes == 0,
        auto_at_boot().recover_voltage_minutes == 0,
        auto_at_boot().float_voltage_minutes == 0,
        auto_at_boot().soc_percent is None,
        auto_at_boot().eod_at is None,
        auto_at_boot().eod_threshold_v is None,
        auto_at_boot().last_solar_attempt_at is None,
        auto_at_boot().manual_override_until is None,
        auto_at_boot().last_switch_at is None,
        auto_at_boot().last_decision is None,
{
}

} // verus!
