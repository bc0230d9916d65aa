//! What holds of the automatic changeover as a whole.

use vstd::prelude::*;

use crate::auto::{
    charge_at, entry_for, has_risen, is_dull, is_emergency, is_overridden, is_solar_time, is_too_soon,
    latest_risen, lemma_latest_risen_in_range, on_line, override_runs, recharge_below, today_in,
    tomorrow_in, verdict, wants_relief, wants_solar, within, Action, DecisionInputs, MIN_SWITCH_GAP,
    SOLAR_FAIL_WINDOW, SOLAR_LOCKOUT_AFTER, V_EMERGENCY, V_FLOAT_MIN_MINUTES,
};
use crate::clock::{in_leap_second, Instant};
use crate::db::{ForecastDay, WeatherSample};
use crate::decimal::Micro;
use crate::relay::{state_on, RelayState};
use crate::routes::auto_after_manual;
use crate::state::{auto_at_boot, AutoState, InnerState};
use crate::tick::{
    auto_after_look, auto_after_switch, auto_before_switch, day_breaks, inputs_of, seen_after, surroundings,
    target_of, target_still_wanted, voltage_now, Surroundings,
};

verus! {

// ---------------------------------------------------------------------------
// The decision
// ---------------------------------------------------------------------------
/// The emergency rule holds in every mode: below `V_EMERGENCY` the load goes to
/// the grid whether the automatic changeover is on or off, however recent the
/// last changeover, whatever is locked out and whatever the weather.
pub proof fn law_emergency_overrides_all(auto: AutoState, inputs: DecisionInputs, v: Micro)
    requires
        inputs.voltage_inst == Some(v),
        v < V_EMERGENCY,
    ensures
        verdict(auto, inputs).reason == "emergency_low_voltage"@,
        inputs.current_relay != RelayState::Grid ==> verdict(auto, inputs).action
            == Action::SwitchToGrid,
        inputs.current_relay == RelayState::Grid ==> verdict(auto, inputs).action == Action::Hold,
{
}

/// With the automatic changeover off, nothing but an emergency moves the relays.
pub proof fn law_disabled_holds(auto: AutoState, inputs: DecisionInputs)
    requires
        !auto.enabled,
        !is_emergency(inputs),
    ensures
        verdict(auto, inputs).action == Action::Hold,
        verdict(auto, inputs).reason == "auto_disabled"@,
{
}

/// Within `MIN_SWITCH_GAP` of the last changeover, by whomever, nothing but an
/// emergency moves the relays.
pub proof fn law_no_oscillation(auto: AutoState, inputs: DecisionInputs)
    requires
        is_too_soon(auto, inputs),
        !is_emergency(inputs),
    ensures
        verdict(auto, inputs).action == Action::Hold,
{
}

/// While what the user chose by hand stands, nothing but an emergency moves the
/// relays.
pub proof fn law_override_holds(auto: AutoState, inputs: DecisionInputs)
    requires
        is_overridden(auto, inputs),
        !is_emergency(inputs),
    ensures
        verdict(auto, inputs).action == Action::Hold,
        auto.enabled ==> verdict(auto, inputs).reason == "manual_override"@,
{
}

/// Neither lockout lets the load back to solar.
pub proof fn law_lockout_blocks_solar(auto: AutoState, inputs: DecisionInputs)
    requires
        auto.eod_lockout || auto.solar_lockout,
    ensures
        verdict(auto, inputs).action != Action::SwitchToSolar,
{
}

/// Outside the solar hours the load never goes back to solar.
pub proof fn law_no_solar_outside_its_hours(auto: AutoState, inputs: DecisionInputs)
    requires
        !is_solar_time(inputs),
    ensures
        verdict(auto, inputs).action != Action::SwitchToSolar,
{
}

/// A decision never switches to where the load already is.
pub proof fn law_switch_changes_source(auto: AutoState, inputs: DecisionInputs)
    ensures
        target_of(verdict(auto, inputs).action) matches Some(target) ==> state_on(target)
            != inputs.current_relay,
{
}

/// The load goes back to solar for one reason only, and to the grid for three.
pub proof fn law_reasons_to_switch(auto: AutoState, inputs: DecisionInputs)
    ensures
        verdict(auto, inputs).action == Action::SwitchToSolar ==> verdict(auto, inputs).reason
            == "voltage_recovered"@,
        verdict(auto, inputs).action == Action::SwitchToGrid ==> {
            ||| verdict(auto, inputs).reason == "emergency_low_voltage"@
            ||| verdict(auto, inputs).reason == "eod_recharge"@
            ||| verdict(auto, inputs).reason == "voltage_low_sustained"@
        },
{
}

/// The weather can only hold a return to solar back. Where the cloud cover or the
/// irradiance is unknown, it plays no part.
pub proof fn law_missing_weather_is_no_obstacle(auto: AutoState, inputs: DecisionInputs)
    requires
        inputs.current_cloud_pct is None || inputs.current_radiation_w is None,
    ensures
        !is_dull(inputs),
        verdict(auto, inputs) == verdict(
            auto,
            DecisionInputs { current_cloud_pct: None, current_radiation_w: None, ..inputs },
        ),
{
}

// ---------------------------------------------------------------------------
// State of charge and threshold
// ---------------------------------------------------------------------------
proof fn lemma_on_line_monotone(a: int, b: int, v0: int, s0: int, v1: int, s1: int)
    requires
        v0 <= a <= b <= v1,
        v0 < v1,
        s0 <= s1,
    ensures
        s0 <= on_line(a, v0, s0, v1, s1) <= on_line(b, v0, s0, v1, s1) <= s1,
{
    let rise = s1 - s0;
    let width = v1 - v0;
    assert(0 <= (a - v0) * rise <= (b - v0) * rise <= width * rise) by (nonlinear_arith)
        requires
            0 <= a - v0 <= b - v0 <= width,
            0 <= rise,
    ;
    assert(0 <= (a - v0) * rise / width <= (b - v0) * rise / width <= width * rise / width)
        by (nonlinear_arith)
        requires
            0 <= (a - v0) * rise <= (b - v0) * rise <= width * rise,
            width > 0,
    ;
    assert(width * rise / width == rise) by (nonlinear_arith)
        requires
            width > 0,
    ;
}

proof fn lemma_charge_on_segments(v: int)
    ensures
        0 <= charge_at(v) <= 100_000_000,
        v <= 24_400_000 ==> charge_at(v) <= 30_000_000,
        24_400_000 <= v ==> 30_000_000 <= charge_at(v),
        v <= 24_800_000 ==> charge_at(v) <= 50_000_000,
        24_800_000 <= v ==> 50_000_000 <= charge_at(v),
        v <= 25_000_000 ==> charge_at(v) <= 60_000_000,
        25_000_000 <= v ==> 60_000_000 <= charge_at(v),
        v <= 25_600_000 ==> charge_at(v) <= 75_000_000,
        25_600_000 <= v ==> 75_000_000 <= charge_at(v),
        v <= 26_400_000 ==> charge_at(v) <= 90_000_000,
        26_400_000 <= v ==> 90_000_000 <= charge_at(v),
{
    if 23_600_000 < v < 27_200_000 {
        if v <= 24_400_000 {
            lemma_on_line_monotone(v, 24_400_000, 23_600_000, 0, 24_400_000, 30_000_000);
        } else if v <= 24_800_000 {
            lemma_on_line_monotone(v, 24_800_000, 24_400_000, 30_000_000, 24_800_000, 50_000_000);
        } else if v <= 25_000_000 {
            lemma_on_line_monotone(v, 25_000_000, 24_800_000, 50_000_000, 25_000_000, 60_000_000);
        } else if v <= 25_600_000 {
            lemma_on_line_monotone(v, 25_600_000, 25_000_000, 60_000_000, 25_600_000, 75_000_000);
        } else if v <= 26_400_000 {
            lemma_on_line_monotone(v, 26_400_000, 25_600_000, 75_000_000, 26_400_000, 90_000_000);
        } else {
            lemma_on_line_monotone(v, 27_200_000, 26_400_000, 90_000_000, 27_200_000, 100_000_000);
        }
    }
}

/// The state of charge lies between empty and full, is 0 % up to the lowest
/// point of the curve and 100 % from its highest on, and never falls as the
/// voltage rises.
pub proof fn law_charge_is_monotone(a: int, b: int)
    requires
        a <= b,
    ensures
        0 <= charge_at(a) <= charge_at(b) <= 100_000_000,
        a <= 23_600_000 ==> charge_at(a) == 0,
        27_200_000 <= b ==> charge_at(b) == 100_000_000,
{
    lemma_charge_on_segments(a);
    lemma_charge_on_segments(b);
    if 23_600_000 < a && b < 27_200_000 {
        if b <= 24_400_000 {
            lemma_on_line_monotone(a, b, 23_600_000, 0, 24_400_000, 30_000_000);
        } else if 24_400_000 < a && b <= 24_800_000 {
            lemma_on_line_monotone(a, b, 24_400_000, 30_000_000, 24_800_000, 50_000_000);
        } else if 24_800_000 < a && b <= 25_000_000 {
            lemma_on_line_monotone(a, b, 24_800_000, 50_000_000, 25_000_000, 60_000_000);
        } else if 25_000_000 < a && b <= 25_600_000 {
            lemma_on_line_monotone(a, b, 25_000_000, 60_000_000, 25_600_000, 75_000_000);
        } else if 25_600_000 < a && b <= 26_400_000 {
            lemma_on_line_monotone(a, b, 25_600_000, 75_000_000, 26_400_000, 90_000_000);
        } else if 26_400_000 < a {
            lemma_on_line_monotone(a, b, 26_400_000, 90_000_000, 27_200_000, 100_000_000);
        }
    }
}

/// The more sun is forecast for tomorrow, the lower the voltage under which the
/// evening recharge begins; a battery that did not float today adds 0.2 V.
pub proof fn law_threshold_follows_forecast(less: Micro, more: Micro, float_reached: bool)
    requires
        less <= more,
    ensures
        recharge_below(Some(more), float_reached) <= recharge_below(Some(less), float_reached),
        recharge_below(Some(less), false) == recharge_below(Some(less), true) + 200_000,
        recharge_below(None, false) == recharge_below(None, true) + 200_000,
        26_300_000 <= recharge_below(Some(less), float_reached) <= 27_200_000,
{
}

// ---------------------------------------------------------------------------
// Today and tomorrow
// ---------------------------------------------------------------------------
/// No entry on which the sun has risen lies after that of the last sunrise, and of
/// entries with one sunrise the one furthest back counts.
pub proof fn lemma_latest_risen_is_latest(forecast: Seq<ForecastDay>, now: Instant, i: int)
    requires
        0 <= i < forecast.len(),
        has_risen(forecast[i], now),
    ensures
        latest_risen(forecast, now) matches Some(best) && forecast[i].sunrise->0.spec_not_after(
            forecast[best].sunrise->0,
        ) && (forecast[i].sunrise == forecast[best].sunrise ==> i <= best),
    decreases forecast.len(),
{
    lemma_latest_risen_in_range(forecast, now);
    lemma_latest_risen_in_range(forecast.drop_last(), now);
    if i < forecast.len() - 1 {
        lemma_latest_risen_is_latest(forecast.drop_last(), now, i);
    } else if let Some(best) = latest_risen(forecast.drop_last(), now) {
        assert(forecast.drop_last()[best] == forecast[best]);
    }
}

/// Today is the entry whose sunrise is the most recent: the sun has risen on no
/// entry later than on that one. Where it has risen on none, today is the first
/// entry, and there is no today only in an empty forecast.
pub proof fn law_today_is_last_sunrise(forecast: Seq<ForecastDay>, now: Instant, i: int)
    requires
        0 <= i < forecast.len(),
    ensures
        today_in(forecast, now) matches Some(today) && 0 <= today < forecast.len(),
        has_risen(forecast[i], now) ==> has_risen(forecast[today_in(forecast, now)->0], now)
            && forecast[i].sunrise->0.spec_not_after(forecast[today_in(forecast, now)->0].sunrise->0),
        (forall|j: int| 0 <= j < forecast.len() ==> !has_risen(#[trigger] forecast[j], now)) ==> today_in(
            forecast,
            now,
        ) == Some(0int),
{
    lemma_latest_risen_in_range(forecast, now);
    if has_risen(forecast[i], now) {
        lemma_latest_risen_is_latest(forecast, now, i);
    }
}

/// An empty forecast has neither a today nor a tomorrow.
pub proof fn law_empty_forecast(now: Instant)
    ensures
        today_in(Seq::<ForecastDay>::empty(), now) is None,
        tomorrow_in(Seq::<ForecastDay>::empty(), now) is None,
{
}

proof fn lemma_entry_for(forecast: Seq<ForecastDay>, date: int, start: int)
    requires
        0 <= start,
    ensures
        match entry_for(forecast, date, start) {
            Some(i) => start <= i < forecast.len() && forecast[i].date == date && (forall|j: int|
                start <= j < i ==> (#[trigger] forecast[j]).date != date),
            None => forall|j: int|
                start <= j < forecast.len() ==> (#[trigger] forecast[j]).date != date,
        },
    decreases forecast.len() - start,
{
    if start < forecast.len() && forecast[start].date != date {
        lemma_entry_for(forecast, date, start + 1);
    }
}

/// Tomorrow is an entry dated one day after today, the first such entry, and it
/// is missing only where the forecast holds none.
pub proof fn law_tomorrow_follows_today(forecast: Seq<ForecastDay>, now: Instant)
    requires
        forecast.len() > 0,
    ensures
        today_in(forecast, now) matches Some(today) && match tomorrow_in(forecast, now) {
            Some(i) => 0 <= i < forecast.len() && forecast[i].date == forecast[today].date + 1
                && forall|j: int| 0 <= j < i ==> (#[trigger] forecast[j]).date != forecast[today].date + 1,
            None => forall|j: int|
                0 <= j < forecast.len() ==> (#[trigger] forecast[j]).date != forecast[today].date + 1,
        },
{
    lemma_latest_risen_in_range(forecast, now);
    lemma_entry_for(forecast, forecast[today_in(forecast, now)->0].date + 1, 0);
}

// ---------------------------------------------------------------------------
// Ticks
// ---------------------------------------------------------------------------
/// The emergency rule holds in degraded mode: a tick sends the load to the grid
/// on the voltage alone, with or without a forecast, weather or the automatic
/// changeover.
pub proof fn law_tick_emergency(
    inner: InnerState,
    seen: Option<Instant>,
    now: Instant,
    forecast: Seq<ForecastDay>,
    weather: Option<WeatherSample>,
    v: Micro,
)
    requires
        voltage_now(inner) == Some(v),
        v < V_EMERGENCY,
        inner.published_state != RelayState::Grid,
    ensures
        ({
            let around = surroundings(forecast, weather, now);
            verdict(
                auto_after_look(inner, seen, now, around),
                inputs_of(inner, now, around),
            ).action == Action::SwitchToGrid
        }),
{
}

/// Both lockouts last until a sunrise: a tick on which no new day breaks keeps
/// them, and while either stands no tick lets the load back to solar.
pub proof fn law_lockout_lasts_until_sunrise(
    inner: InnerState,
    seen: Option<Instant>,
    now: Instant,
    around: Surroundings,
)
    requires
        !day_breaks(seen, around.today_sunrise, now),
    ensures
        auto_after_look(inner, seen, now, around).eod_lockout == inner.auto.eod_lockout,
        auto_after_look(inner, seen, now, around).solar_lockout == inner.auto.solar_lockout,
        inner.auto.eod_lockout || inner.auto.solar_lockout ==> verdict(
            auto_after_look(inner, seen, now, around),
            inputs_of(inner, now, around),
        ).action != Action::SwitchToSolar,
{
}

/// A new day lifts both lockouts and forgets the failures of the day before.
pub proof fn law_sunrise_resets(
    inner: InnerState,
    seen: Option<Instant>,
    now: Instant,
    around: Surroundings,
)
    requires
        day_breaks(seen, around.today_sunrise, now),
    ensures
        ({
            let auto = auto_after_look(inner, seen, now, around);
            &&& !auto.eod_lockout
            &&& !auto.solar_lockout
            &&& auto.solar_failed_attempts_today == 0
            &&& auto.last_solar_attempt_at is None
            &&& !auto.float_reached_today
        }),
{
}

/// A sunrise begins one day only: once a tick has taken it in, no later tick
/// takes it as new.
pub proof fn law_sunrise_counts_once(
    seen: Option<Instant>,
    sunrise: Instant,
    now: Instant,
    later: Instant,
)
    requires
        sunrise.spec_not_after(now),
    ensures
        !day_breaks(seen_after(seen, Some(sunrise), now), Some(sunrise), later),
{
}

/// The float counter never exceeds that of the recovery.
pub open spec fn float_within_recovery(auto: AutoState) -> bool {
    auto.float_voltage_minutes <= auto.recover_voltage_minutes
}

/// The float voltage lies above that of the recovery, so the float counter never
/// exceeds the other: it does not at boot, and every tick and every changeover keeps
/// it so.
pub proof fn law_float_within_recovery(
    inner: InnerState,
    seen: Option<Instant>,
    now: Instant,
    around: Surroundings,
    reason: Seq<char>,
    new_state: RelayState,
    succeeded: bool,
)
    ensures
        float_within_recovery(auto_at_boot()),
        float_within_recovery(inner.auto) ==> {
            &&& float_within_recovery(auto_after_look(inner, seen, now, around))
            &&& float_within_recovery(auto_before_switch(inner.auto, reason))
            &&& float_within_recovery(
                auto_after_switch(inner.auto, reason, new_state, now, succeeded),
            )
            &&& float_within_recovery(auto_after_manual(inner.auto, now))
        },
{
}

/// The voltage cannot be low and recovered at once: after any tick at most one of
/// the two counters runs, so that no tick wants both a relief and a return. The
/// float counter only runs along with that of the recovery.
pub proof fn law_counters_exclude_each_other(
    inner: InnerState,
    seen: Option<Instant>,
    now: Instant,
    around: Surroundings,
)
    ensures
        ({
            let auto = auto_after_look(inner, seen, now, around);
            &&& auto.low_voltage_minutes == 0 || auto.recover_voltage_minutes == 0
            &&& auto.float_voltage_minutes > 0 ==> auto.recover_voltage_minutes > 0
            &&& !(wants_relief(auto, inputs_of(inner, now, around)) && wants_solar(
                auto,
                inputs_of(inner, now, around),
            ))
        }),
{
}

/// Once reached, the float flag stays until a new day breaks; it is only set once
/// the float voltage has held for `V_FLOAT_MIN_MINUTES`.
pub proof fn law_float_flag(
    inner: InnerState,
    seen: Option<Instant>,
    now: Instant,
    around: Surroundings,
)
    requires
        !day_breaks(seen, around.today_sunrise, now),
    ensures
        ({
            let auto = auto_after_look(inner, seen, now, around);
            &&& inner.auto.float_reached_today ==> auto.float_reached_today
            &&& auto.float_reached_today && !inner.auto.float_reached_today
                ==> auto.float_voltage_minutes >= V_FLOAT_MIN_MINUTES
        }),
{
}

// ---------------------------------------------------------------------------
// Failures of solar
// ---------------------------------------------------------------------------
/// Solar is locked out exactly when it has failed `SOLAR_LOCKOUT_AFTER` times
/// since sunrise.
pub open spec fn lockout_matches_failures(auto: AutoState) -> bool {
    auto.solar_lockout <==> auto.solar_failed_attempts_today >= SOLAR_LOCKOUT_AFTER
}

/// The solar lockout always matches the failures of the day: it does so at boot,
/// and every tick and every changeover keeps it so.
pub proof fn law_lockout_matches_failures(
    inner: InnerState,
    seen: Option<Instant>,
    now: Instant,
    around: Surroundings,
    reason: Seq<char>,
    new_state: RelayState,
    succeeded: bool,
)
    ensures
        lockout_matches_failures(auto_at_boot()),
        lockout_matches_failures(inner.auto) ==> lockout_matches_failures(
            auto_after_look(inner, seen, now, around),
        ),
        lockout_matches_failures(inner.auto) ==> lockout_matches_failures(
            auto_after_switch(inner.auto, reason, new_state, now, succeeded),
        ),
        lockout_matches_failures(inner.auto) ==> lockout_matches_failures(
            auto_after_manual(inner.auto, now),
        ),
{
}

/// Two returns to the grid for low voltage, each within `SOLAR_FAIL_WINDOW` of a
/// return to solar, lock solar out.
pub proof fn law_two_failures_lock_out(
    auto: AutoState,
    solar_first: Instant,
    grid_first: Instant,
    solar_second: Instant,
    grid_second: Instant,
)
    requires
        within(Some(solar_first), grid_first, SOLAR_FAIL_WINDOW),
        within(Some(solar_second), grid_second, SOLAR_FAIL_WINDOW),
    ensures
        ({
            let a = auto_after_switch(
                auto,
                "voltage_recovered"@,
                RelayState::Solar,
                solar_first,
                true,
            );
            let b = auto_after_switch(
                a,
                "voltage_low_sustained"@,
                RelayState::Grid,
                grid_first,
                true,
            );
            let c = auto_after_switch(
                b,
                "voltage_recovered"@,
                RelayState::Solar,
                solar_second,
                true,
            );
            auto_after_switch(
                c,
                "voltage_low_sustained"@,
                RelayState::Grid,
                grid_second,
                true,
            ).solar_lockout
        }),
{
    reveal_strlit("voltage_recovered");
    reveal_strlit("voltage_low_sustained");
    assert("voltage_recovered"@.len() != "voltage_low_sustained"@.len());
}

/// Nothing counts as a failure of solar but a return to the grid for low voltage
/// that succeeded within `SOLAR_FAIL_WINDOW` of the last return to solar.
pub proof fn law_only_quick_returns_count(
    auto: AutoState,
    reason: Seq<char>,
    new_state: RelayState,
    now: Instant,
    succeeded: bool,
)
    ensures
        auto_after_switch(auto, reason, new_state, now, succeeded).solar_failed_attempts_today
            != auto.solar_failed_attempts_today ==> {
            &&& succeeded
            &&& reason == "voltage_low_sustained"@
            &&& new_state == RelayState::Grid
            &&& within(auto.last_solar_attempt_at, now, SOLAR_FAIL_WINDOW)
        },
{
}

/// After any changeover that a decision led to, succeeded or not, no tick within
/// `MIN_SWITCH_GAP` moves the relays but in an emergency.
pub proof fn law_gap_after_switch(
    auto: AutoState,
    reason: Seq<char>,
    new_state: RelayState,
    at: Instant,
    succeeded: bool,
    inputs: DecisionInputs,
)
    requires
        within(Some(at), inputs.now, MIN_SWITCH_GAP),
        !is_emergency(inputs),
    ensures
        verdict(auto_after_switch(auto, reason, new_state, at, succeeded), inputs).action
            == Action::Hold,
{
}

// ---------------------------------------------------------------------------
// Changeovers by hand
// ---------------------------------------------------------------------------
/// What the user chose by hand stands for `MIN_SWITCH_GAP`, and then no longer:
/// outside of leap seconds it holds decisions back for as long as the gap itself.
pub proof fn law_manual_choice_lasts(auto: AutoState, at: Instant, now: Instant)
    requires
        at.secs + MIN_SWITCH_GAP <= i64::MAX,
        !in_leap_second(at),
        !in_leap_second(now),
    ensures
        override_runs(auto_after_manual(auto, at), now) <==> within(Some(at), now, MIN_SWITCH_GAP),
{
}

/// While what the user chose by hand stands, no tick moves the relays but in an
/// emergency, whatever other changeovers there have been. Neither a tick nor the end
/// of an automatic changeover forgets the choice.
pub proof fn law_manual_choice_stands(
    inner: InnerState,
    seen: Option<Instant>,
    now: Instant,
    around: Surroundings,
    reason: Seq<char>,
    new_state: RelayState,
    succeeded: bool,
)
    requires
        override_runs(inner.auto, now),
    ensures
        !is_emergency(inputs_of(inner, now, around)) ==> verdict(
            auto_after_look(inner, seen, now, around),
            inputs_of(inner, now, around),
        ).action == Action::Hold,
        auto_after_look(inner, seen, now, around).manual_override_until
            == inner.auto.manual_override_until,
        auto_before_switch(inner.auto, reason).manual_override_until
            == inner.auto.manual_override_until,
        auto_after_switch(inner.auto, reason, new_state, now, succeeded).manual_override_until
            == inner.auto.manual_override_until,
{
}

/// A decision that was taken before the user chose by hand is not carried out any
/// more, but for an emergency.
pub proof fn law_late_decision_stands_back(
    auto: AutoState,
    at: Instant,
    action: Action,
    reason: Seq<char>,
    decided: Instant,
)
    requires
        at.secs + MIN_SWITCH_GAP <= i64::MAX,
        decided.spec_not_after(at),
        reason != "emergency_low_voltage"@,
    ensures
        target_still_wanted(auto_after_manual(auto, at), action, reason, decided) is None,
{
}

} // verus!
