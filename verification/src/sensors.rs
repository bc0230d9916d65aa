//! The two voltage and current sensors on the bus.

use vstd::prelude::*;

use crate::decimal::Micro;
use crate::state::{
    battery_of, input_of, shifted_in, voltage_at, InnerState, SensorReading, GRID_SENSOR,
    LIVE_BUFFER_CAPACITY, SOLAR_SENSOR,
};

verus! {

/// Register that holds the voltage over the shunt.
pub const REG_SHUNT_VOLTAGE: u8 = 0x01;

/// Register that holds the bus voltage.
pub const REG_BUS_VOLTAGE: u8 = 0x02;

/// Seconds between two polls.
pub const POLL_INTERVAL: u64 = 1;

/// Millionths of a volt per step of the bus voltage: 1.6 mV.
pub const BUS_STEP: i64 = 1_600;

/// Millionths of a milliampere per step of the shunt voltage: 2.5 uV over a shunt
/// of 8 milliohm.
pub const SHUNT_STEP: i64 = 312_500;

/// The number that two bytes of a register write, the high byte first.
pub open spec fn register_value(bytes: [u8; 2]) -> int {
    bytes@[0] * 256 + bytes@[1]
}

/// The same number with a sign, in two's complement.
pub open spec fn signed_value(bytes: [u8; 2]) -> int {
    if register_value(bytes) < 32_768 {
        register_value(bytes)
    } else {
        register_value(bytes) - 65_536
    }
}

/// The number that two bytes of a register write.
pub fn read_reg(bytes: [u8; 2]) -> (value: u16)
    ensures
        value == register_value(bytes),
{
    bytes[0] as u16 * 256 + bytes[1] as u16
}

/// What the registers of a sensor say. The bus voltage has no sign; the current
/// has one.
pub fn read_sensor(address: u8, bus: [u8; 2], shunt: [u8; 2]) -> (reading: SensorReading)
    ensures
        reading.address == address,
        reading.bus_voltage_v == register_value(bus) * 1_600,
        reading.current_ma == signed_value(shunt) * 312_500,
{
    let bus_raw: u16 = read_reg(bus);
    let shunt_raw: u16 = read_reg(shunt);
    let signed: i64 = if shunt_raw < 32_768 {
        shunt_raw as i64
    } else {
        shunt_raw as i64 - 65_536
    };
    let bus_voltage_v: Micro = bus_raw as i64 * BUS_STEP;
    let current_ma: Micro = signed * SHUNT_STEP;
    SensorReading { address, bus_voltage_v, current_ma }
}

/// What one poll of the sensors gives: the readings of those that answered, the
/// battery sensor first.
pub open spec fn answered(
    battery: Option<SensorReading>,
    solar: Option<SensorReading>,
) -> Seq<SensorReading> {
    let first = match battery {
        Some(reading) => seq![reading],
        None => Seq::empty(),
    };
    match solar {
        Some(reading) => first.push(reading),
        None => first,
    }
}

/// Takes one poll of the sensors in. The readings are published where any sensor
/// answered, and a row is added to the live buffer at every poll: a sensor that
/// did not answer leaves its place in the row empty.
pub fn record_poll(
    inner: &mut InnerState,
    ts: i64,
    battery: Option<SensorReading>,
    solar: Option<SensorReading>,
)
    ensures
        ({
            let readings = answered(battery, solar);
            &&& final(inner).sensors@ == if readings.len() > 0 {
                readings
            } else {
                old(inner).sensors@
            }
            &&& ({
                let full = old(inner).live.ts@.len() >= LIVE_BUFFER_CAPACITY;
                let ups = match old(inner).ups {
                    Some(reading) => Some(&reading),
                    None => None,
                };
                &&& final(inner).live.ts@ == shifted_in(old(inner).live.ts@, full, ts)
                &&& final(inner).live.sensor_grid_v@ == shifted_in(
                    old(inner).live.sensor_grid_v@,
                    full,
                    voltage_at(readings, GRID_SENSOR),
                )
                &&& final(inner).live.sensor_solar_v@ == shifted_in(
                    old(inner).live.sensor_solar_v@,
                    full,
                    voltage_at(readings, SOLAR_SENSOR),
                )
                &&& final(inner).live.ups_input_v@ == shifted_in(
                    old(inner).live.ups_input_v@,
                    full,
                    input_of(ups),
                )
                &&& final(inner).live.ups_battery_v@ == shifted_in(
                    old(inner).live.ups_battery_v@,
                    full,
                    battery_of(ups),
                )
            })
            &&& old(inner).live.aligned() ==> final(inner).live.aligned()
            &&& *final(inner) == (InnerState {
                sensors: final(inner).sensors,
                live: final(inner).live,
                ..*old(inner)
            })
        }),
{
    let mut readings: Vec<SensorReading> = Vec::new();
    if let Some(reading) = battery {
        readings.push(reading);
    }
    if let Some(reading) = solar {
        readings.push(reading);
    }
    assert(readings@ =~= answered(battery, solar));
    inner.live.push(ts, readings.as_slice(), inner.ups.as_ref());
    if readings.len() > 0 {
        inner.sensors = readings;
    }
}

} // verus!
