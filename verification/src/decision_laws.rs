//! When each rule of the automatic changeover applies and what it then decides, on
//! the measurements themselves. Voltages are in millionths of a volt.

use vstd::prelude::*;

use crate::auto::{is_solar_time, override_runs, recharge_below, verdict, within, Action, DecisionInputs};
use crate::clock::Instant;
use crate::decimal::{decimal_text, Micro};
use crate::relay::RelayState;
use crate::state::AutoState;
use crate::text::decimal_digits;

verus! {

// ---------------------------------------------------------------------------
// What the rules look at
// ---------------------------------------------------------------------------
/// The rules are asked at all: the automatic changeover is on, the battery is not
/// known to be under 24.8 V, and what the user chose by hand does not stand.
pub open spec fn rules_are_asked(auto: AutoState, inputs: DecisionInputs) -> bool {
    &&& auto.enabled
    &&& !(inputs.voltage_inst matches Some(v) && v < 24_800_000)
    &&& !(auto.manual_override_until matches Some(until) && !until.spec_not_after(inputs.now))
}

/// Less than ten minutes have passed since the last changeover.
pub open spec fn switched_lately(auto: AutoState, inputs: DecisionInputs) -> bool {
    auto.last_switch_at matches Some(t) && inputs.now.spec_elapsed_since(t) < 600_000_000_000
}

/// The highest voltage that still asks for a recharge lies under this one.
pub open spec fn evening_limit(tomorrow_kwh: Option<Micro>, float_reached: bool) -> int {
    (match tomorrow_kwh {
        None => 26_700_000int,
        Some(kwh) => if kwh < 2_000_000 {
            27_000_000
        } else if kwh < 4_000_000 {
            26_700_000
        } else {
            26_300_000
        },
    }) + (if float_reached {
        0int
    } else {
        200_000
    })
}

/// It is at most three hours before a known sunset, no evening switch was made, and the
/// voltage at rest, zero where unknown, is too low for the night.
pub open spec fn evening_is_due(auto: AutoState, inputs: DecisionInputs) -> bool {
    &&& inputs.today_sunset matches Some(sunset) && sunset.spec_earlier_by(10_800).spec_not_after(
        inputs.now,
    )
    &&& !auto.eod_lockout
    &&& match inputs.voltage_max5min {
        Some(v) => v < evening_limit(inputs.tomorrow_radiation_kwh, auto.float_reached_today),
        None => true,
    }
}

/// The battery was low for three minutes in a row, off the grid.
pub open spec fn relief_is_due(auto: AutoState, inputs: DecisionInputs) -> bool {
    auto.low_voltage_minutes >= 3 && inputs.current_relay != RelayState::Grid
}

/// The sun is up, and more than three hours from setting, as far as both are known.
pub open spec fn sun_is_useful(inputs: DecisionInputs) -> bool {
    inputs.today_sunrise matches Some(sunrise) ==> inputs.today_sunset matches Some(sunset) ==> {
        &&& sunrise.spec_not_after(inputs.now)
        &&& inputs.now.spec_not_after(sunset.spec_earlier_by(10_800))
    }
}

/// The battery has recovered for five minutes in a row, off solar, by day and with
/// nothing locked out.
pub open spec fn return_is_due(auto: AutoState, inputs: DecisionInputs) -> bool {
    &&& auto.recover_voltage_minutes >= 5
    &&& inputs.current_relay != RelayState::Solar
    &&& !auto.eod_lockout
    &&& !auto.solar_lockout
    &&& sun_is_useful(inputs)
}

/// The sky is known to be covered at 80 % or more and to give less than 200 W/m2.
pub open spec fn sky_is_covered(inputs: DecisionInputs) -> bool {
    &&& inputs.current_cloud_pct matches Some(cloud) && cloud >= 80_000_000
    &&& inputs.current_radiation_w matches Some(rad) && rad < 200_000_000
}

// ---------------------------------------------------------------------------
// What each rule decides wherever it applies
// ---------------------------------------------------------------------------
/// Every battery that is known to be under 24.8 V right now is an emergency: off the
/// grid the load goes there, on it nothing moves. The message tells the voltage.
pub proof fn law_every_emergency_is_met(auto: AutoState, inputs: DecisionInputs, v: Micro)
    requires
        inputs.voltage_inst == Some(v),
        v < 24_800_000,
    ensures
        verdict(auto, inputs).reason == "emergency_low_voltage"@,
        inputs.current_relay == RelayState::Grid ==> verdict(auto, inputs).action == Action::Hold,
        inputs.current_relay != RelayState::Grid ==> verdict(auto, inputs).action
            == Action::SwitchToGrid,
        verdict(auto, inputs).message == "Urgence : tension batterie "@ + decimal_text(
            v as int,
            2,
        ) + "V < "@ + decimal_text(24_800_000, 1) + "V"@,
{
}

/// Without an emergency, the changeover that is off decides nothing; one that is on
/// decides nothing while what the user chose by hand stands.
pub proof fn law_every_refusal_is_told(auto: AutoState, inputs: DecisionInputs)
    requires
        !(inputs.voltage_inst matches Some(v) && v < 24_800_000),
    ensures
        !auto.enabled ==> {
            &&& verdict(auto, inputs).action == Action::Hold
            &&& verdict(auto, inputs).reason == "auto_disabled"@
            &&& verdict(auto, inputs).message == "Auto-switch désactivé"@
        },
        auto.enabled && (auto.manual_override_until matches Some(until) && !until.spec_not_after(
            inputs.now,
        )) ==> {
            &&& verdict(auto, inputs).action == Action::Hold
            &&& verdict(auto, inputs).reason == "manual_override"@
            &&& verdict(auto, inputs).message == "Choix manuel respecté"@
        },
{
}

/// Every evening counts: whenever the rules are asked, it is at most three hours before
/// a known sunset, no evening switch was made yet and the voltage at rest is under the
/// limit for tomorrow's irradiation and the float flag, whichever value that flag has,
/// the load goes to the grid, unless it is there or changed over lately.
pub proof fn law_every_evening_recharges(auto: AutoState, inputs: DecisionInputs)
    requires
        rules_are_asked(auto, inputs),
        evening_is_due(auto, inputs),
    ensures
        inputs.current_relay == RelayState::Grid || !switched_lately(auto, inputs) ==> {
            &&& verdict(auto, inputs).reason == "eod_recharge"@
            &&& verdict(auto, inputs).message == "Fin de journée : V "@ + decimal_text(
                match inputs.voltage_max5min {
                    Some(v) => v as int,
                    None => 0,
                },
                2,
            ) + "V < seuil "@ + decimal_text(
                evening_limit(inputs.tomorrow_radiation_kwh, auto.float_reached_today),
                1,
            ) + "V (recharge MPPT)"@
        },
        inputs.current_relay == RelayState::Grid ==> verdict(auto, inputs).action == Action::Hold,
        inputs.current_relay != RelayState::Grid && !switched_lately(auto, inputs) ==> verdict(
            auto,
            inputs,
        ).action == Action::SwitchToGrid,
        inputs.current_relay != RelayState::Grid && switched_lately(auto, inputs) ==> {
            &&& verdict(auto, inputs).action == Action::Hold
            &&& verdict(auto, inputs).reason == "anti_oscillation"@
            &&& verdict(auto, inputs).message == "EOD souhaité mais switch trop récent"@
        },
{
}

/// Every sustained low voltage counts: three minutes of it take the load off solar, and
/// out of open relays, unless the evening comes first or the load changed over lately.
pub proof fn law_every_low_voltage_is_relieved(auto: AutoState, inputs: DecisionInputs)
    requires
        rules_are_asked(auto, inputs),
        !evening_is_due(auto, inputs),
        relief_is_due(auto, inputs),
    ensures
        !switched_lately(auto, inputs) ==> {
            &&& verdict(auto, inputs).action == Action::SwitchToGrid
            &&& verdict(auto, inputs).reason == "voltage_low_sustained"@
            &&& verdict(auto, inputs).message == "Tension < "@ + decimal_text(25_200_000, 1)
                + "V depuis "@ + decimal_digits(auto.low_voltage_minutes as nat) + " min"@
        },
        switched_lately(auto, inputs) ==> {
            &&& verdict(auto, inputs).action == Action::Hold
            &&& verdict(auto, inputs).reason == "anti_oscillation"@
            &&& verdict(auto, inputs).message == "Tension basse mais switch trop récent"@
        },
{
}

/// Every recovery counts: five minutes of it bring the load back to solar by day, unless
/// solar is locked out, the load changed over lately or the sky is known to be covered.
pub proof fn law_every_recovery_returns(auto: AutoState, inputs: DecisionInputs)
    requires
        rules_are_asked(auto, inputs),
        !evening_is_due(auto, inputs),
        !relief_is_due(auto, inputs),
        return_is_due(auto, inputs),
    ensures
        switched_lately(auto, inputs) ==> {
            &&& verdict(auto, inputs).action == Action::Hold
            &&& verdict(auto, inputs).reason == "anti_oscillation"@
            &&& verdict(auto, inputs).message
                == "Reprise SOLAR souhaitée mais switch trop récent"@
        },
        !switched_lately(auto, inputs) && sky_is_covered(inputs) ==> {
            &&& verdict(auto, inputs).action == Action::Hold
            &&& verdict(auto, inputs).reason == "weather_unfavorable"@
            &&& verdict(auto, inputs).message == "Reprise Solar reportée — ciel couvert ("@
                + decimal_text(inputs.current_cloud_pct->0 as int, 0) + "%, "@ + decimal_text(
                inputs.current_radiation_w->0 as int,
                0,
            ) + " W/m²)"@
        },
        !switched_lately(auto, inputs) && !sky_is_covered(inputs) ==> {
            &&& verdict(auto, inputs).action == Action::SwitchToSolar
            &&& verdict(auto, inputs).reason == "voltage_recovered"@
            &&& verdict(auto, inputs).message == "Tension ≥ "@ + decimal_text(26_200_000, 1)
                + "V depuis "@ + decimal_digits(auto.recover_voltage_minutes as nat)
                + " min — reprise solaire"@
        },
{
}

/// Where no rule applies, nothing moves.
pub proof fn law_otherwise_nothing_moves(auto: AutoState, inputs: DecisionInputs)
    requires
        rules_are_asked(auto, inputs),
        !evening_is_due(auto, inputs),
        !relief_is_due(auto, inputs),
        !return_is_due(auto, inputs),
    ensures
        verdict(auto, inputs).action == Action::Hold,
        verdict(auto, inputs).reason == "hold"@,
        verdict(auto, inputs).message == "Conditions stables"@,
{
}

// ---------------------------------------------------------------------------
// Why the relays move
// ---------------------------------------------------------------------------
/// The load never goes to the grid without cause: it is off the grid, and the battery
/// is under 24.8 V, or the rules are asked, there was no changeover lately, and the
/// evening or a sustained low voltage is due.
pub proof fn law_grid_has_a_cause(auto: AutoState, inputs: DecisionInputs)
    requires
        verdict(auto, inputs).action == Action::SwitchToGrid,
    ensures
        inputs.current_relay != RelayState::Grid,
        (inputs.voltage_inst matches Some(v) && v < 24_800_000) || (rules_are_asked(auto, inputs)
            && !switched_lately(auto, inputs) && (evening_is_due(auto, inputs) || relief_is_due(
            auto,
            inputs,
        ))),
{
}

/// The load never goes to solar without cause: the rules are asked, a recovery is due
/// and neither the evening nor a low voltage, there was no changeover lately, and the
/// sky is not known to be covered.
pub proof fn law_solar_has_a_cause(auto: AutoState, inputs: DecisionInputs)
    requires
        verdict(auto, inputs).action == Action::SwitchToSolar,
    ensures
        rules_are_asked(auto, inputs),
        return_is_due(auto, inputs),
        !evening_is_due(auto, inputs),
        !relief_is_due(auto, inputs),
        !switched_lately(auto, inputs),
        !sky_is_covered(inputs),
{
}

// ---------------------------------------------------------------------------
// How two decisions relate
// ---------------------------------------------------------------------------
/// The float flag only moves the evening limit: a battery that is recharged although it
/// floated today is also recharged where it did not.
pub proof fn law_float_flag_only_lowers_the_limit(auto: AutoState, inputs: DecisionInputs)
    requires
        verdict(AutoState { float_reached_today: true, ..auto }, inputs).reason == "eod_recharge"@,
    ensures
        verdict(AutoState { float_reached_today: false, ..auto }, inputs).reason
            == "eod_recharge"@,
        verdict(AutoState { float_reached_today: false, ..auto }, inputs).action == verdict(
            AutoState { float_reached_today: true, ..auto },
            inputs,
        ).action,
{
    lemma_evening_reason(AutoState { float_reached_today: true, ..auto }, inputs);
}

/// A lower voltage at rest never takes an evening recharge back.
pub proof fn law_lower_voltage_still_recharges(
    auto: AutoState,
    inputs: DecisionInputs,
    high: Micro,
    low: Micro,
)
    requires
        low <= high,
        inputs.voltage_max5min == Some(high),
        verdict(auto, inputs).reason == "eod_recharge"@,
    ensures
        verdict(auto, DecisionInputs { voltage_max5min: Some(low), ..inputs }).reason
            == "eod_recharge"@,
        verdict(auto, DecisionInputs { voltage_max5min: Some(low), ..inputs }).action == verdict(
            auto,
            inputs,
        ).action,
{
    lemma_evening_reason(auto, inputs);
}

/// A decision looks at nothing but its inputs and at what counts in the state: what is
/// only shown plays no part.
pub proof fn law_display_plays_no_part(auto: AutoState, other: AutoState, inputs: DecisionInputs)
    requires
        other.enabled == auto.enabled,
        other.float_reached_today == auto.float_reached_today,
        other.eod_lockout == auto.eod_lockout,
        other.solar_lockout == auto.solar_lockout,
        other.manual_override_until == auto.manual_override_until,
        other.last_switch_at == auto.last_switch_at,
        other.low_voltage_minutes == auto.low_voltage_minutes,
        other.recover_voltage_minutes == auto.recover_voltage_minutes,
    ensures
        verdict(other, inputs) == verdict(auto, inputs),
{
}

/// A reason names one rule only.
proof fn lemma_evening_reason(auto: AutoState, inputs: DecisionInputs)
    ensures
        verdict(auto, inputs).reason == "eod_recharge"@ <==> rules_are_asked(auto, inputs)
            && evening_is_due(auto, inputs) && (inputs.current_relay == RelayState::Grid
            || !switched_lately(auto, inputs)),
{
    reveal_strlit("emergency_low_voltage");
    reveal_strlit("auto_disabled");
    reveal_strlit("manual_override");
    reveal_strlit("eod_recharge");
    reveal_strlit("voltage_low_sustained");
    reveal_strlit("voltage_recovered");
    reveal_strlit("anti_oscillation");
    reveal_strlit("weather_unfavorable");
    reveal_strlit("hold");
    assert("eod_recharge"@.len() == 12);
    assert("emergency_low_voltage"@.len() != 12 && "auto_disabled"@.len() != 12);
    assert("manual_override"@.len() != 12 && "voltage_low_sustained"@.len() != 12);
    assert("voltage_recovered"@.len() != 12 && "anti_oscillation"@.len() != 12);
    assert("weather_unfavorable"@.len() != 12 && "hold"@.len() != 12);
}

// ---------------------------------------------------------------------------
// The measures that the rules share
// ---------------------------------------------------------------------------
/// A point in time counts as recent exactly while less than that many seconds have
/// passed since; one that never was is not recent.
pub proof fn law_recent_is_less_than_the_span(since: Instant, now: Instant, secs: i64)
    ensures
        within(Some(since), now, secs) <==> now.spec_elapsed_since(since) < secs * 1_000_000_000,
        !within(None, now, secs),
{
}

/// What the user chose stands before its end, not from it on, and never without one.
pub proof fn law_override_has_an_end(auto: AutoState, until: Instant, now: Instant)
    ensures
        auto.manual_override_until == Some(until) ==> (override_runs(auto, now)
            <==> !until.spec_not_after(now)),
        auto.manual_override_until is None ==> !override_runs(auto, now),
{
}

/// The hour is an obstacle only where both sunrise and sunset are known, and then before
/// the one and from three hours before the other.
pub proof fn law_solar_hours(inputs: DecisionInputs)
    ensures
        is_solar_time(inputs) <==> sun_is_useful(inputs),
        inputs.today_sunrise is None || inputs.today_sunset is None ==> is_solar_time(inputs),
{
}

/// The evening threshold is the limit under which a battery at rest is recharged.
pub proof fn law_threshold_is_the_limit(tomorrow_kwh: Option<Micro>, float_reached: bool)
    ensures
        recharge_below(tomorrow_kwh, float_reached) == evening_limit(tomorrow_kwh, float_reached),
{
}

} // verus!
