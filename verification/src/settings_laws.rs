//! The settings of the unit, and how they stand to each other.

use vstd::prelude::*;

use crate::auto::{
    CLOUD_HIGH_PCT, EOD_OFFSET, MIN_SWITCH_GAP, RADIATION_LOW_W, REST_WINDOW, SOLAR_FAIL_WINDOW,
    SOLAR_LOCKOUT_AFTER, TICK, V_EMERGENCY, V_FLOAT, V_FLOAT_MIN_MINUTES, V_LOW, V_LOW_MIN_MINUTES,
    V_RECOVER, V_RECOVER_MIN_MINUTES, WEATHER_MAX_AGE,
};
use crate::db::{HEALTH_TICK, MIGRATION_TIMEOUT, PING_TIMEOUT};
use crate::recorder;
use crate::relay::RELAY_SETTLE_MIN;
use crate::routes::SWITCH_UX_DELAY;
use crate::sensors;
use crate::state::{GRID_SENSOR, LIVE_BUFFER_CAPACITY, SOLAR_SENSOR};
use crate::tick::SWITCH_AUTO_DELAY;
use crate::ups;
use crate::watchdog::WATCHDOG_INTERVAL;
use crate::weather::{HTTP_TIMEOUT, SOURCE, TICK_CURRENT, TICK_DAILY};

verus! {

/// The voltages rise from the emergency over low and recovered to floating, with a gap
/// between low and recovered; every limit and every span of time is the one that the
/// battery, the relays and the services were chosen for.
pub proof fn law_settings()
    ensures
        V_EMERGENCY < V_LOW < V_RECOVER < V_FLOAT,
        V_EMERGENCY == 24_800_000 && V_LOW == 25_200_000,
        V_RECOVER == 26_200_000 && V_FLOAT == 27_200_000,
        V_LOW_MIN_MINUTES == 3 && V_RECOVER_MIN_MINUTES == 5 && V_FLOAT_MIN_MINUTES == 10,
        EOD_OFFSET == 3 * 3_600,
        MIN_SWITCH_GAP == 10 * 60 && SOLAR_FAIL_WINDOW == 15 * 60 && SOLAR_LOCKOUT_AFTER == 2,
        CLOUD_HIGH_PCT == 80_000_000 && RADIATION_LOW_W == 200_000_000,
        WEATHER_MAX_AGE == 30 * 60 && TICK == 60,
        REST_WINDOW == 300 && LIVE_BUFFER_CAPACITY == 300,
        RELAY_SETTLE_MIN == 500 && SWITCH_UX_DELAY == 2_000 && SWITCH_AUTO_DELAY == 2_000,
        WATCHDOG_INTERVAL == 500,
        GRID_SENSOR == 0x40 && SOLAR_SENSOR == 0x41,
        sensors::REG_SHUNT_VOLTAGE == 0x01 && sensors::REG_BUS_VOLTAGE == 0x02,
        sensors::BUS_STEP == 1_600 && sensors::SHUNT_STEP == 312_500,
        sensors::POLL_INTERVAL == 1 && ups::POLL_INTERVAL == 2 && ups::READ_TIMEOUT == 3,
        recorder::TICK == 10,
        PING_TIMEOUT == 3 && MIGRATION_TIMEOUT == 10 && HEALTH_TICK == 10,
        TICK_CURRENT == 15 * 60 && TICK_DAILY == 60 * 60 && HTTP_TIMEOUT == 10,
        SOURCE@ == "open-meteo"@,
{
}

} // verus!
