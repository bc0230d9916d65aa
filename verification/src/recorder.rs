//! The rows that the recorder stores every few seconds.

use vstd::prelude::*;

use crate::decimal::Micro;
use crate::state::{InnerState, SensorReading, UpsReading};

verus! {

/// Seconds between two records.
pub const TICK: u64 = 10;

/// A reading of a sensor as it is stored.
#[derive(Debug, Clone, Copy, PartialEq, Eq, Structural)]
pub struct SensorRow {
    pub address: i16,
    pub bus_v: Micro,
    pub current_ma: Micro,
}

/// The row of one reading.
pub open spec fn sensor_row(reading: SensorReading) -> SensorRow {
    SensorRow {
        address: reading.address as i16,
        bus_v: reading.bus_voltage_v,
        current_ma: reading.current_ma,
    }
}

/// The rows of the readings that are published, in their order. None are stored
/// where there are none.
pub fn sensor_rows(sensors: &[SensorReading]) -> (rows: Vec<SensorRow>)
    ensures
        rows@ == Seq::new(sensors@.len(), |i: int| sensor_row(sensors@[i])),
        rows@.len() == sensors@.len(),
        forall|i: int|
            0 <= i < sensors@.len() ==> {
                &&& (#[trigger] rows@[i]).address == sensors@[i].address
                &&& rows@[i].bus_v == sensors@[i].bus_voltage_v
                &&& rows@[i].current_ma == sensors@[i].current_ma
            },
{
    let mut rows: Vec<SensorRow> = Vec::new();
    let mut i: usize = 0;
    while i < sensors.len()
        invariant
            i <= sensors@.len(),
            rows@ == Seq::new(i as nat, |j: int| sensor_row(sensors@[j])),
        decreases sensors@.len() - i,
    {
        let reading: SensorReading = sensors[i];
        rows.push(
            SensorRow {
                address: reading.address as i16,
                bus_v: reading.bus_voltage_v,
                current_ma: reading.current_ma,
            },
        );
        i = i + 1;
        assert(rows@ =~= Seq::new(i as nat, |j: int| sensor_row(sensors@[j])));
    }
    rows
}

/// A number of seconds in the column that stores it: a number beyond the column
/// wraps around.
pub open spec fn stored_seconds(seconds: u32) -> int {
    if seconds <= i32::MAX {
        seconds as int
    } else {
        seconds - 0x1_0000_0000
    }
}

/// A number of seconds in the column that stores it.
pub fn runtime_column(runtime_s: Option<u32>) -> (column: Option<i32>)
    ensures
        match (runtime_s, column) {
            (Some(seconds), Some(stored)) => stored == stored_seconds(seconds),
            (None, None) => true,
            _ => false,
        },
{
    match runtime_s {
        Some(seconds) => {
            let stored: i32 = if seconds <= i32::MAX as u32 {
                seconds as i32
            } else {
                (seconds as i64 - 0x1_0000_0000) as i32
            };
            Some(stored)
        },
        None => None,
    }
}

/// What one record stores.
#[derive(Debug)]
pub struct Snapshot {
    pub sensors: Vec<SensorRow>,
    pub ups: Option<UpsReading>,
}

/// Takes what is published now for a record.
pub fn snapshot(inner: &InnerState) -> (taken: Snapshot)
    ensures
        taken.sensors@ == Seq::new(
            inner.sensors@.len(),
            |i: int| sensor_row(inner.sensors@[i]),
        ),
        taken.sensors@.len() == inner.sensors@.len(),
        forall|i: int|
            0 <= i < inner.sensors@.len() ==> {
                &&& (#[trigger] taken.sensors@[i]).address == inner.sensors@[i].address
                &&& taken.sensors@[i].bus_v == inner.sensors@[i].bus_voltage_v
                &&& taken.sensors@[i].current_ma == inner.sensors@[i].current_ma
            },
        taken.ups == inner.ups,
{
    let ups: Option<UpsReading> = match &inner.ups {
        Some(reading) => Some(reading.clone()),
        None => None,
    };
    Snapshot { sensors: sensor_rows(inner.sensors.as_slice()), ups }
}

} // verus!
