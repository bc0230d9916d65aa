//! What is stored and answered holds what was measured, value by value.

use vstd::prelude::*;

use crate::auto::Decision;
use crate::db::{
    done, flags_after_migration, flags_after_ping, reached, setting, step_after_ping, view_of, DbFlags, DbStep,
};
use crate::history::{range_named, Range};
use crate::recorder::{sensor_row, stored_seconds};
use crate::routes::range_asked;
use crate::sensors::{answered, register_value, signed_value};
use crate::state::SensorReading;

verus! {

// ---------------------------------------------------------------------------
// The recorder
// ---------------------------------------------------------------------------
/// The stored row of a reading holds that reading's own address, voltage and current.
pub proof fn law_row_holds_the_reading(reading: SensorReading)
    ensures
        sensor_row(reading).address == reading.address,
        sensor_row(reading).bus_v == reading.bus_voltage_v,
        sensor_row(reading).current_ma == reading.current_ma,
{
}

/// Readings that differ are stored as rows that differ: nothing of a reading is lost.
pub proof fn law_row_loses_nothing(a: SensorReading, b: SensorReading)
    ensures
        sensor_row(a) == sensor_row(b) <==> a == b,
{
}

/// A number of seconds is stored as it is where the column holds it, and wraps around
/// beyond.
pub proof fn law_seconds_fit_or_wrap(seconds: u32)
    ensures
        i32::MIN <= stored_seconds(seconds) <= i32::MAX,
        seconds <= i32::MAX ==> stored_seconds(seconds) == seconds,
        (seconds - stored_seconds(seconds)) % 0x1_0000_0000 == 0,
{
}

// ---------------------------------------------------------------------------
// The sensors
// ---------------------------------------------------------------------------
/// A register counts its high byte 256-fold, and no two registers say the same. With a
/// sign, it is the same number modulo 65536, between -32768 and 32767.
pub proof fn law_registers_count_in_bytes(a: [u8; 2], b: [u8; 2])
    ensures
        register_value(a) == a[0] * 256 + a[1],
        register_value(a) == register_value(b) ==> a[0] == b[0] && a[1] == b[1],
        -32_768 <= signed_value(a) <= 32_767,
        (register_value(a) - signed_value(a)) % 65_536 == 0,
{
}

/// A poll gives the readings of the sensors that answered and no others, that of the
/// battery first.
pub proof fn law_poll_gives_what_answered(a: SensorReading, b: SensorReading)
    ensures
        answered(Some(a), Some(b)) == seq![a, b],
        answered(Some(a), None) == seq![a],
        answered(None, Some(b)) == seq![b],
        answered(None, None).len() == 0,
{
    assert(answered(Some(a), Some(b)) =~= seq![a, b]);
    assert(answered(None, Some(b)) =~= seq![b]);
}

// ---------------------------------------------------------------------------
// The database
// ---------------------------------------------------------------------------
/// The database counts as connected after an attempt exactly where the ping answered and
/// the schema is in place, by now or through migrations that succeeded. Migrations are
/// asked for exactly where the ping answered and they were never done; nothing but their
/// success puts the schema in place, and nothing takes it away.
pub proof fn law_attempt_to_connect(flags: DbFlags, ping: bool, migrated: bool)
    ensures
        step_after_ping(flags, ping) is Migrate <==> ping && !flags.schema_initialized,
        ping && !flags.schema_initialized ==> flags_after_ping(flags, ping) == flags,
        !(ping && !flags.schema_initialized) ==> {
            &&& flags_after_ping(flags, ping).connected == ping
            &&& flags_after_ping(flags, ping).schema_initialized == flags.schema_initialized
            &&& step_after_ping(flags, ping) == (DbStep::Done {
                connected: ping,
                changed: flags.connected != ping,
            })
        },
        flags_after_migration(flags, migrated).connected == migrated,
        flags_after_migration(flags, migrated).schema_initialized <==> flags.schema_initialized
            || migrated,
        done(flags, migrated) == (DbStep::Done {
            connected: migrated,
            changed: flags.connected != migrated,
        }),
        reached(flags, ping).connected == ping,
        reached(flags, ping).schema_initialized == flags.schema_initialized,
{
}

/// A setting counts as stored where it says `true`, `1`, `false` or `0`; anything else,
/// or nothing, gives the default.
pub proof fn law_setting_says_yes_or_no(text: Seq<char>, default: bool)
    ensures
        text == "true"@ || text == "1"@ ==> setting(Some(text), default),
        text == "false"@ || text == "0"@ ==> !setting(Some(text), default),
        text != "true"@ && text != "1"@ && text != "false"@ && text != "0"@ ==> setting(
            Some(text),
            default,
        ) == default,
        setting(None, default) == default,
{
    reveal_strlit("true");
    reveal_strlit("false");
    reveal_strlit("1");
    reveal_strlit("0");
    assert("false"@.len() == 5 && "true"@.len() == 4 && "1"@.len() == 1 && "0"@.len() == 1);
    assert("1"@[0] == '1' && "0"@[0] == '0');
}

// ---------------------------------------------------------------------------
// The history
// ---------------------------------------------------------------------------
/// Every window reaches back as its name says and is cut into steps that a client can
/// draw; a text that is none of the four names names nothing, and a query that names
/// nothing gets the hour.
pub proof fn law_windows_and_their_names(range: Range, text: Seq<char>)
    ensures
        range == Range::Hour ==> range.spec_name() == "hour"@ && range.window() == "1 hour"@
            && range.bucket() == "1 minute"@,
        range == Range::Day ==> range.spec_name() == "day"@ && range.window() == "1 day"@
            && range.bucket() == "5 minutes"@,
        range == Range::Week ==> range.spec_name() == "week"@ && range.window() == "7 days"@
            && range.bucket() == "1 hour"@,
        range == Range::Month ==> range.spec_name() == "month"@ && range.window() == "30 days"@
            && range.bucket() == "6 hours"@,
        range_named(text) matches Some(named) ==> text == named.spec_name(),
        range_named(text) is None <==> text != "hour"@ && text != "day"@ && text != "week"@ && text
            != "month"@,
        range_asked(Some(range.spec_name())) == range,
        range_named(text) is None ==> range_asked(Some(text)) == Range::Hour,
        range_asked(None) == Range::Hour,
{
    crate::history::law_range_is_named(range);
}

// ---------------------------------------------------------------------------
// Views
// ---------------------------------------------------------------------------
/// What a decision says is what it holds, and a text that is there is taken whole.
pub proof fn law_views_leave_nothing_out(decision: Decision, text: &str)
    ensures
        decision@.action == decision.action,
        decision@.reason == decision.reason@,
        decision@.message == decision.message@,
        view_of(Some(text)) == Some(text@),
        view_of(None) is None,
{
}

} // verus!
