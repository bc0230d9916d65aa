//! What holds of the live buffer over many rows.

use vstd::prelude::*;

use crate::decimal::Micro;
use crate::state::{
    battery_of, highest, input_of, recent, shifted_in, voltage_at, SensorReading, UpsReading, LIVE_BUFFER_CAPACITY,
};

verus! {

/// A column of the live buffer, new at first, once the entries have been added to
/// it one after the other.
pub open spec fn filled<T>(entries: Seq<T>) -> Seq<T>
    decreases entries.len(),
{
    if entries.len() == 0 {
        Seq::empty()
    } else {
        let before = filled(entries.drop_last());
        shifted_in(before, before.len() >= LIVE_BUFFER_CAPACITY, entries.last())
    }
}

/// The live buffer holds the latest rows in the order in which they came: all of
/// them up to its capacity, and then the last `LIVE_BUFFER_CAPACITY`.
pub proof fn law_buffer_keeps_the_latest<T>(entries: Seq<T>)
    ensures
        filled(entries) == recent(entries, LIVE_BUFFER_CAPACITY as nat),
    decreases entries.len(),
{
    if entries.len() > 0 {
        law_buffer_keeps_the_latest(entries.drop_last());
        assert(filled(entries) =~= recent(entries, LIVE_BUFFER_CAPACITY as nat));
    } else {
        assert(entries =~= Seq::empty());
    }
}

/// The voltage at rest is the maximum of the window: no measurement in it is
/// higher, and it is one of them. There is none exactly where the window holds no
/// measurement.
pub proof fn law_highest_is_maximum(column: Seq<Option<Micro>>)
    ensures
        match highest(column) {
            Some(top) => {
                &&& exists|i: int| 0 <= i < column.len() && #[trigger] column[i] == Some(top)
                &&& forall|i: int|
                    0 <= i < column.len() ==> (#[trigger] column[i] matches Some(v) ==> v <= top)
            },
            None => forall|i: int| 0 <= i < column.len() ==> #[trigger] column[i] is None,
        },
    decreases column.len(),
{
    if column.len() > 0 {
        let rest = column.drop_last();
        law_highest_is_maximum(rest);
        assert forall|i: int| 0 <= i < column.len() - 1 implies #[trigger] column[i] == rest[i] by {}
        if let Some(top) = highest(column) {
            if highest(rest) == Some(top) {
                let i = choose|i: int| 0 <= i < rest.len() && #[trigger] rest[i] == Some(top);
                assert(column[i] == Some(top));
            } else {
                assert(column[column.len() - 1] == Some(top));
            }
        }
    }
}

/// The last entries of a column are its end: as many as were asked for, or all where
/// there are fewer, in their order.
pub proof fn law_recent_is_the_end<T>(column: Seq<T>, rows: nat)
    ensures
        recent(column, rows).len() == if rows < column.len() {
            rows
        } else {
            column.len()
        },
        forall|i: int|
            0 <= i < recent(column, rows).len() ==> #[trigger] recent(column, rows)[i] == column[i
                + column.len() - recent(column, rows).len()],
{
}

/// The live buffer counted from its end: after any number of rows it holds the last 300
/// or all of them, the latest last.
pub proof fn law_buffer_counted_from_its_end<T>(entries: Seq<T>)
    ensures
        filled(entries).len() == if entries.len() > 300 {
            300
        } else {
            entries.len() as int
        },
        forall|back: int|
            1 <= back <= filled(entries).len() ==> #[trigger] filled(entries)[filled(entries).len()
                - back] == entries[entries.len() - back],
{
    law_buffer_keeps_the_latest(entries);
}

/// One more row: the new entry is the last, the others keep their order, and where the
/// column makes room exactly its first entry goes.
pub proof fn law_new_row_is_the_last<T>(column: Seq<T>, make_room: bool, entry: T)
    ensures
        shifted_in(column, make_room, entry).len() > 0,
        shifted_in(column, make_room, entry).last() == entry,
        !make_room ==> shifted_in(column, make_room, entry).drop_last() == column,
        make_room && column.len() > 0 ==> shifted_in(column, make_room, entry).drop_last()
            == column.drop_first(),
        make_room && column.len() == 0 ==> shifted_in(column, make_room, entry).len() == 1,
{
    assert(column.push(entry).drop_last() =~= column);
    if column.len() > 0 {
        assert(column.drop_first().push(entry).drop_last() =~= column.drop_first());
    }
}

/// The voltage at an address is that of the first reading with the address, and there is
/// none exactly where no reading has it.
pub proof fn law_first_sensor_counts(sensors: Seq<SensorReading>, address: u8)
    ensures
        forall|i: int|
            0 <= i < sensors.len() && (#[trigger] sensors[i]).address == address && (forall|j: int|
                0 <= j < i ==> (#[trigger] sensors[j]).address != address) ==> voltage_at(
                sensors,
                address,
            ) == Some(sensors[i].bus_voltage_v),
        (forall|i: int| 0 <= i < sensors.len() ==> (#[trigger] sensors[i]).address != address)
            ==> voltage_at(sensors, address) is None,
    decreases sensors.len(),
{
    if sensors.len() > 0 && sensors[0].address != address {
        let rest = sensors.drop_first();
        law_first_sensor_counts(rest, address);
        assert forall|i: int| 0 <= i < rest.len() implies #[trigger] rest[i] == sensors[i + 1] by {}
        assert forall|i: int|
            0 <= i < sensors.len() && (#[trigger] sensors[i]).address == address && (forall|j: int|
                0 <= j < i ==> (#[trigger] sensors[j]).address != address) implies voltage_at(
            sensors,
            address,
        ) == Some(sensors[i].bus_voltage_v) by {
            assert(rest[i - 1] == sensors[i]);
            assert forall|j: int| 0 <= j < i - 1 implies (#[trigger] rest[j]).address != address by {
                assert(rest[j] == sensors[j + 1]);
            }
        }
        if forall|i: int| 0 <= i < sensors.len() ==> (#[trigger] sensors[i]).address != address {
            assert forall|i: int| 0 <= i < rest.len() implies (#[trigger] rest[i]).address
                != address by {
                assert(rest[i] == sensors[i + 1]);
            }
        }
    }
}

/// What a row takes from the power supply is the input and the battery voltage of its
/// latest reading, and nothing without one.
pub proof fn law_row_takes_the_supply(reading: UpsReading)
    ensures
        input_of(Some(&reading)) == reading.input_voltage_v,
        battery_of(Some(&reading)) == reading.battery_voltage_v,
        input_of(None) is None,
        battery_of(None) is None,
{
}

} // verus!
