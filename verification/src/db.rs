//! What the unit knows of its database, and the rows it exchanges with it.

use vstd::prelude::*;

use crate::clock::Instant;
use crate::decimal::Micro;
use crate::relay::{bool_name, bool_text};
use crate::text::same_text;

verus! {

/// Seconds after which a ping is given up.
pub const PING_TIMEOUT: u64 = 3;

/// Seconds after which the migrations are given up.
pub const MIGRATION_TIMEOUT: u64 = 10;

/// Seconds between two pings.
pub const HEALTH_TICK: u64 = 10;

// ---------------------------------------------------------------------------
// The connection
// ---------------------------------------------------------------------------
/// Whether the database answers, and whether its schema is in place.
#[derive(Debug, Clone, Copy, PartialEq, Eq, Structural)]
pub struct DbFlags {
    pub connected: bool,
    pub schema_initialized: bool,
}

/// What follows an attempt to reach the database.
#[derive(Debug, Clone, Copy, PartialEq, Eq, Structural)]
pub enum DbStep {
    /// Run the migrations.
    Migrate,
    /// The attempt is over. `changed` tells whether the connection came or went.
    Done { connected: bool, changed: bool },
}

/// The flags once the connection is known to be `connected`.
pub open spec fn reached(flags: DbFlags, connected: bool) -> DbFlags {
    DbFlags { connected, ..flags }
}

/// How an attempt ends in which the connection is found to be `connected`.
pub open spec fn done(flags: DbFlags, connected: bool) -> DbStep {
    DbStep::Done { connected, changed: flags.connected != connected }
}

/// What follows a ping: nothing more where it failed, the migrations where they
/// have not been run.
pub open spec fn step_after_ping(flags: DbFlags, answered: bool) -> DbStep {
    if !answered {
        done(flags, false)
    } else if !flags.schema_initialized {
        DbStep::Migrate
    } else {
        done(flags, true)
    }
}

/// The flags after a ping.
pub open spec fn flags_after_ping(flags: DbFlags, answered: bool) -> DbFlags {
    match step_after_ping(flags, answered) {
        DbStep::Migrate => flags,
        DbStep::Done { connected, .. } => reached(flags, connected),
    }
}

/// The flags after the migrations.
pub open spec fn flags_after_migration(flags: DbFlags, succeeded: bool) -> DbFlags {
    DbFlags {
        connected: succeeded,
        schema_initialized: flags.schema_initialized || succeeded,
    }
}

/// The connection to the database. Its view is the pair of flags.
#[derive(Debug)]
pub struct Db {
    connected: bool,
    schema_initialized: bool,
}

impl View for Db {
    type V = DbFlags;

    closed spec fn view(&self) -> DbFlags {
        DbFlags { connected: self.connected, schema_initialized: self.schema_initialized }
    }
}

impl Db {
    /// A database that nobody has tried to reach yet.
    pub fn new() -> (db: Self)
        ensures
            db@ == (DbFlags { connected: false, schema_initialized: false }),
    {
        Db { connected: false, schema_initialized: false }
    }

    /// Whether the database answered when it was last tried.
    pub fn is_connected(&self) -> (b: bool)
        ensures
            b == self@.connected,
    {
        self.connected
    }

    /// Takes the connection as `value`, and tells whether that is a change.
    pub fn set_connected(&mut self, value: bool) -> (changed: bool)
        ensures
            final(self)@ == reached(old(self)@, value),
            changed == (old(self)@.connected != value),
    {
        let prev: bool = self.connected;
        self.connected = value;
        prev != value
    }

    /// Takes the outcome of a ping in. A ping that ran out of time failed.
    pub fn after_ping(&mut self, answered: bool) -> (step: DbStep)
        ensures
            final(self)@ == flags_after_ping(old(self)@, answered),
            step == step_after_ping(old(self)@, answered),
    {
        if !answered {
            let changed: bool = self.set_connected(false);
            return DbStep::Done { connected: false, changed };
        }
        if !self.schema_initialized {
            return DbStep::Migrate;
        }
        let changed: bool = self.set_connected(true);
        DbStep::Done { connected: true, changed }
    }

    /// Takes the outcome of the migrations in. Migrations that ran out of time
    /// failed.
    pub fn after_migration(&mut self, succeeded: bool) -> (step: DbStep)
        ensures
            final(self)@ == flags_after_migration(old(self)@, succeeded),
            step == done(old(self)@, succeeded),
    {
        if succeeded {
            self.schema_initialized = true;
        }
        let changed: bool = self.set_connected(succeeded);
        DbStep::Done { connected: succeeded, changed }
    }
}

/// A database that counts as connected has its schema in place: so it is at
/// first, and every attempt to reach the database keeps it so.
pub proof fn law_connected_has_schema(flags: DbFlags, answered: bool, succeeded: bool)
    requires
        flags.connected ==> flags.schema_initialized,
    ensures
        flags_after_ping(flags, answered).connected ==> flags_after_ping(
            flags,
            answered,
        ).schema_initialized,
        flags_after_migration(flags, succeeded).connected ==> flags_after_migration(
            flags,
            succeeded,
        ).schema_initialized,
{
}

/// The migrations are run once: after they have succeeded no attempt asks for
/// them again, whatever the pings in between gave.
pub proof fn law_migrations_run_once(flags: DbFlags, first: bool, then_answered: bool)
    requires
        flags.schema_initialized,
    ensures
        flags_after_ping(flags, first).schema_initialized,
        !(step_after_ping(flags_after_ping(flags, first), then_answered) is Migrate),
{
}

// ---------------------------------------------------------------------------
// Settings
// ---------------------------------------------------------------------------
/// What a stored setting means: `true` or `1`, `false` or `0`, and the default
/// where it is missing or says anything else.
pub open spec fn setting(stored: Option<Seq<char>>, default: bool) -> bool {
    match stored {
        Some(text) => if text == "true"@ || text == "1"@ {
            true
        } else if text == "false"@ || text == "0"@ {
            false
        } else {
            default
        },
        None => default,
    }
}

/// A text that may be missing.
pub open spec fn view_of(text: Option<&str>) -> Option<Seq<char>> {
    match text {
        Some(text) => Some(text@),
        None => None,
    }
}

/// Reads a stored setting, `None` where it is missing or could not be fetched.
pub fn get_setting_bool(stored: Option<&str>, default: bool) -> (value: bool)
    ensures
        value == setting(view_of(stored), default),
{
    match stored {
        Some(text) => {
            if same_text(text, "true") || same_text(text, "1") {
                true
            } else if same_text(text, "false") || same_text(text, "0") {
                false
            } else {
                default
            }
        },
        None => default,
    }
}

/// A setting as it is stored.
pub fn set_setting_bool(value: bool) -> (stored: &'static str)
    ensures
        stored@ == bool_text(value),
{
    bool_name(value)
}

/// A setting that was stored is read back as it was, whatever the default.
pub proof fn law_setting_round_trip(value: bool, default: bool)
    ensures
        setting(Some(bool_text(value)), default) == value,
{
    reveal_strlit("true");
    reveal_strlit("false");
    reveal_strlit("1");
    reveal_strlit("0");
    assert("false"@.len() == 5 && "true"@.len() == 4 && "1"@.len() == 1);
}

/// Whether the automatic changeover is on at boot: as it was stored, and on where
/// the database cannot be reached or says nothing.
pub fn enabled_at_boot(connected: bool, stored: Option<&str>) -> (enabled: bool)
    ensures
        enabled == (!connected || setting(view_of(stored), true)),
{
    if connected {
        get_setting_bool(stored, true)
    } else {
        true
    }
}

// ---------------------------------------------------------------------------
// Rows
// ---------------------------------------------------------------------------
/// The forecast for one day.
#[derive(Debug, Clone, Copy, PartialEq, Eq)]
pub struct ForecastDay {
    /// The day, counted from 0001-01-01 as day 1.
    pub date: i32,
    pub sunrise: Option<Instant>,
    pub sunset: Option<Instant>,
    /// Irradiation over the day, in millionths of a kWh/m2.
    pub shortwave_sum_kwh: Option<Micro>,
}

/// The latest weather that is recent enough to count.
#[derive(Debug, Clone, Copy, PartialEq, Eq)]
pub struct WeatherSample {
    /// Cloud cover, in millionths of a percent.
    pub cloud_cover_pct: Option<Micro>,
    /// Irradiance, in millionths of a W/m2.
    pub shortwave_wm2: Option<Micro>,
}

/// A changeover for the audit trail, made by hand, automatically or by the watchdog.
#[derive(Debug)]
pub struct RelayEvent {
    /// The state that the relays were brought to.
    pub state: &'static str,
    /// Who made it and why.
    pub reason: String,
}

} // verus!
