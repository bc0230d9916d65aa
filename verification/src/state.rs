//! What the unit knows: the latest measurements, the last five minutes of them,
//! and where the automatic changeover stands.

use vstd::prelude::*;
use std::collections::VecDeque;

use crate::clock::Instant;
use crate::db::Db;
use crate::decimal::Micro;
use crate::relay::{RelayController, RelayState};

verus! {

/// Rows that the live buffer holds: five minutes at one row per second.
pub const LIVE_BUFFER_CAPACITY: usize = 300;

/// Bus address of the sensor on the battery, which also feeds from the grid.
pub const GRID_SENSOR: u8 = 0x40;

/// Bus address of the sensor on the solar side.
pub const SOLAR_SENSOR: u8 = 0x41;

/// A source that the load can be put on.
#[derive(Debug, Clone, Copy, PartialEq, Eq, Structural)]
pub enum Network {
    Grid,
    Solar,
}

impl Network {
    /// The network in lower case, as it is published.
    pub open spec fn spec_name(self) -> Seq<char> {
        match self {
            Network::Grid => "grid"@,
            Network::Solar => "solar"@,
        }
    }

    /// The network in lower case, as it is published.
    pub fn name(self) -> (name: &'static str)
        ensures
            name@ == self.spec_name(),
    {
        match self {
            Network::Grid => "grid",
            Network::Solar => "solar",
        }
    }
}

/// One reading of one sensor.
#[derive(Debug, Clone, Copy, PartialEq, Eq, Structural)]
pub struct SensorReading {
    pub address: u8,
    /// Bus voltage, in millionths of a volt.
    pub bus_voltage_v: Micro,
    /// Current, in millionths of a milliampere.
    pub current_ma: Micro,
}

/// One reading of the uninterruptible power supply. A field is `None` where the
/// supply did not report it.
#[derive(Debug)]
pub struct UpsReading {
    pub input_voltage_v: Option<Micro>,
    pub input_frequency_hz: Option<Micro>,
    pub output_voltage_v: Option<Micro>,
    pub load_pct: Option<Micro>,
    pub battery_pct: Option<Micro>,
    pub battery_voltage_v: Option<Micro>,
    pub runtime_s: Option<u32>,
    pub status: Option<String>,
    /// When the reading was taken, in seconds since 1970.
    pub last_seen: i64,
}

/// What a reading of the power supply says.
pub struct UpsValues {
    pub input_voltage_v: Option<Micro>,
    pub input_frequency_hz: Option<Micro>,
    pub output_voltage_v: Option<Micro>,
    pub load_pct: Option<Micro>,
    pub battery_pct: Option<Micro>,
    pub battery_voltage_v: Option<Micro>,
    pub runtime_s: Option<u32>,
    pub status: Option<Seq<char>>,
    pub last_seen: i64,
}

/// A reading that reports nothing.
pub open spec fn no_values() -> UpsValues {
    UpsValues {
        input_voltage_v: None,
        input_frequency_hz: None,
        output_voltage_v: None,
        load_pct: None,
        battery_pct: None,
        battery_voltage_v: None,
        runtime_s: None,
        status: None,
        last_seen: 0,
    }
}

impl View for UpsReading {
    type V = UpsValues;

    open spec fn view(&self) -> UpsValues {
        UpsValues {
            input_voltage_v: self.input_voltage_v,
            input_frequency_hz: self.input_frequency_hz,
            output_voltage_v: self.output_voltage_v,
            load_pct: self.load_pct,
            battery_pct: self.battery_pct,
            battery_voltage_v: self.battery_voltage_v,
            runtime_s: self.runtime_s,
            status: match self.status {
                Some(text) => Some(text@),
                None => None,
            },
            last_seen: self.last_seen,
        }
    }
}

impl Default for UpsReading {
    fn default() -> (reading: Self)
        ensures
            reading@ == no_values(),
    {
        UpsReading {
            input_voltage_v: None,
            input_frequency_hz: None,
            output_voltage_v: None,
            load_pct: None,
            battery_pct: None,
            battery_voltage_v: None,
            runtime_s: None,
            status: None,
            last_seen: 0,
        }
    }
}

impl Clone for UpsReading {
    fn clone(&self) -> (copy: Self)
        ensures
            copy == *self,
    {
        UpsReading {
            input_voltage_v: self.input_voltage_v,
            input_frequency_hz: self.input_frequency_hz,
            output_voltage_v: self.output_voltage_v,
            load_pct: self.load_pct,
            battery_pct: self.battery_pct,
            battery_voltage_v: self.battery_voltage_v,
            runtime_s: self.runtime_s,
            status: match &self.status {
                Some(text) => Some(text.clone()),
                None => None,
            },
            last_seen: self.last_seen,
        }
    }
}

/// The latest decision of the automatic changeover, kept for display.
#[derive(Debug, Clone)]
pub struct AutoDecision {
    pub at: Instant,
    /// Stable identifier of the rule that decided.
    pub reason: String,
    /// Short sentence for people.
    pub message: String,
}

/// Where the automatic changeover stands.
#[derive(Debug, Clone)]
pub struct AutoState {
    /// Whether the automatic changeover is on.
    pub enabled: bool,
    /// Estimated state of charge, in millionths of a percent.
    pub soc_percent: Option<Micro>,
    /// Whether the battery reached its float voltage since sunrise.
    pub float_reached_today: bool,
    /// Set once the end-of-day recharge has begun; no return to solar until the
    /// next sunrise.
    pub eod_lockout: bool,
    /// When the end-of-day window opens, as far as the sunset is known.
    pub eod_at: Option<Instant>,
    /// The voltage under which the end-of-day recharge begins.
    pub eod_threshold_v: Option<Micro>,
    /// Set once solar has failed too often since sunrise; no return to solar
    /// until the next one.
    pub solar_lockout: bool,
    /// How often a return to solar failed since sunrise.
    pub solar_failed_attempts_today: u32,
    /// When the load was last put back on solar.
    pub last_solar_attempt_at: Option<Instant>,
    /// Until when the latest changeover by hand stands: before that, nothing but
    /// an emergency moves the relays.
    pub manual_override_until: Option<Instant>,
    /// When the relays last changed over, by hand, automatically or by the
    /// watchdog.
    pub last_switch_at: Option<Instant>,
    /// The latest decision.
    pub last_decision: Option<AutoDecision>,
    /// Minutes in a row under the low voltage.
    pub low_voltage_minutes: u32,
    /// Minutes in a row at the recovery voltage or above.
    pub recover_voltage_minutes: u32,
    /// Minutes in a row at the float voltage or above.
    pub float_voltage_minutes: u32,
}

/// The automatic changeover as the unit boots.
pub open spec fn auto_at_boot() -> AutoState {
    AutoState {
        enabled: true,
        soc_percent: None,
        float_reached_today: false,
        eod_lockout: false,
        eod_at: None,
        eod_threshold_v: None,
        solar_lockout: false,
        solar_failed_attempts_today: 0,
        last_solar_attempt_at: None,
        manual_override_until: None,
        last_switch_at: None,
        last_decision: None,
        low_voltage_minutes: 0,
        recover_voltage_minutes: 0,
        float_voltage_minutes: 0,
    }
}

impl Default for AutoState {
    fn default() -> (auto_state: Self)
        ensures
            auto_state == auto_at_boot(),
    {
        AutoState {
            enabled: true,
            soc_percent: None,
            float_reached_today: false,
            eod_lockout: false,
            eod_at: None,
            eod_threshold_v: None,
            solar_lockout: false,
            solar_failed_attempts_today: 0,
            last_solar_attempt_at: None,
            manual_override_until: None,
            last_switch_at: None,
            last_decision: None,
            low_voltage_minutes: 0,
            recover_voltage_minutes: 0,
            float_voltage_minutes: 0,
        }
    }
}

// ---------------------------------------------------------------------------
// The live buffer
// ---------------------------------------------------------------------------
/// The measurements of the last seconds, a column per quantity. Row `i` is made
/// of the entries at `i`.
#[derive(Debug)]
pub struct LiveBuffer {
    pub ts: VecDeque<i64>,
    pub sensor_grid_v: VecDeque<Option<Micro>>,
    pub sensor_solar_v: VecDeque<Option<Micro>>,
    pub ups_input_v: VecDeque<Option<Micro>>,
    pub ups_battery_v: VecDeque<Option<Micro>>,
}

/// The voltage that the first sensor at an address reports.
pub open spec fn voltage_at(sensors: Seq<SensorReading>, address: u8) -> Option<Micro>
    decreases sensors.len(),
{
    if sensors.len() == 0 {
        None
    } else if sensors[0].address == address {
        Some(sensors[0].bus_voltage_v)
    } else {
        voltage_at(sensors.drop_first(), address)
    }
}

/// A column with an entry added, once its oldest entry has made room.
pub open spec fn shifted_in<T>(column: Seq<T>, make_room: bool, entry: T) -> Seq<T> {
    if make_room && column.len() > 0 {
        column.drop_first().push(entry)
    } else {
        column.push(entry)
    }
}

/// The last entries of a column: `secs` of them, or all where there are fewer.
pub open spec fn recent<T>(column: Seq<T>, secs: nat) -> Seq<T> {
    if secs < column.len() {
        column.skip(column.len() - secs)
    } else {
        column
    }
}

/// The highest entry of a column, `None` where it holds no measurement.
pub open spec fn highest(column: Seq<Option<Micro>>) -> Option<Micro>
    decreases column.len(),
{
    if column.len() == 0 {
        None
    } else {
        higher(highest(column.drop_last()), column.last())
    }
}

/// The higher of two measurements; a missing one gives way.
pub open spec fn higher(a: Option<Micro>, b: Option<Micro>) -> Option<Micro> {
    match (a, b) {
        (None, b) => b,
        (a, None) => a,
        (Some(x), Some(y)) => if x < y {
            Some(y)
        } else {
            Some(x)
        },
    }
}

/// The value that a reading of the power supply gives for its input.
pub open spec fn input_of(ups: Option<&UpsReading>) -> Option<Micro> {
    match ups {
        Some(reading) => reading.input_voltage_v,
        None => None,
    }
}

/// The value that a reading of the power supply gives for its battery.
pub open spec fn battery_of(ups: Option<&UpsReading>) -> Option<Micro> {
    match ups {
        Some(reading) => reading.battery_voltage_v,
        None => None,
    }
}

/// The voltage that the first sensor at an address reports.
pub fn value_for(sensors: &[SensorReading], addr: u8) -> (voltage: Option<Micro>)
    ensures
        voltage == voltage_at(sensors@, addr),
{
    let mut i: usize = 0;
    assert(sensors@.skip(0) =~= sensors@);
    while i < sensors.len()
        invariant
            i <= sensors@.len(),
            voltage_at(sensors@, addr) == voltage_at(sensors@.skip(i as int), addr),
        decreases sensors@.len() - i,
    {
        assert(sensors@.skip(i as int)[0] == sensors@[i as int]);
        assert(sensors@.skip(i as int).drop_first() =~= sensors@.skip(i + 1));
        if sensors[i].address == addr {
            return Some(sensors[i].bus_voltage_v);
        }
        i = i + 1;
    }
    None
}

impl LiveBuffer {
    /// The columns are aligned, and none is longer than the buffer holds.
    pub open spec fn aligned(&self) -> bool {
        &&& self.ts@.len() <= LIVE_BUFFER_CAPACITY
        &&& self.sensor_grid_v@.len() == self.ts@.len()
        &&& self.sensor_solar_v@.len() == self.ts@.len()
        &&& self.ups_input_v@.len() == self.ts@.len()
        &&& self.ups_battery_v@.len() == self.ts@.len()
    }

    /// An empty buffer.
    pub fn new() -> (buffer: Self)
        ensures
            buffer.aligned(),
            buffer.ts@.len() == 0,
    {
        LiveBuffer {
            ts: VecDeque::with_capacity(LIVE_BUFFER_CAPACITY),
            sensor_grid_v: VecDeque::with_capacity(LIVE_BUFFER_CAPACITY),
            sensor_solar_v: VecDeque::with_capacity(LIVE_BUFFER_CAPACITY),
            ups_input_v: VecDeque::with_capacity(LIVE_BUFFER_CAPACITY),
            ups_battery_v: VecDeque::with_capacity(LIVE_BUFFER_CAPACITY),
        }
    }

    /// Adds a row. A full buffer first drops its oldest one.
    pub fn push(&mut self, ts: i64, sensors: &[SensorReading], ups: Option<&UpsReading>)
        ensures
            old(self).aligned() ==> final(self).aligned(),
            ({
                let full = old(self).ts@.len() >= LIVE_BUFFER_CAPACITY;
                &&& final(self).ts@ == shifted_in(old(self).ts@, full, ts)
                &&& final(self).sensor_grid_v@ == shifted_in(
                    old(self).sensor_grid_v@,
                    full,
                    voltage_at(sensors@, GRID_SENSOR),
                )
                &&& final(self).sensor_solar_v@ == shifted_in(
                    old(self).sensor_solar_v@,
                    full,
                    voltage_at(sensors@, SOLAR_SENSOR),
                )
                &&& final(self).ups_input_v@ == shifted_in(
                    old(self).ups_input_v@,
                    full,
                    input_of(ups),
                )
                &&& final(self).ups_battery_v@ == shifted_in(
                    old(self).ups_battery_v@,
                    full,
                    battery_of(ups),
                )
            }),
    {
        if self.ts.len() >= LIVE_BUFFER_CAPACITY {
            let _ = self.ts.pop_front();
            let _ = self.sensor_grid_v.pop_front();
            let _ = self.sensor_solar_v.pop_front();
            let _ = self.ups_input_v.pop_front();
            let _ = self.ups_battery_v.pop_front();
        }
        self.ts.push_back(ts);
        self.sensor_grid_v.push_back(value_for(sensors, GRID_SENSOR));
        self.sensor_solar_v.push_back(value_for(sensors, SOLAR_SENSOR));
        let input: Option<Micro> = match ups {
            Some(reading) => reading.input_voltage_v,
            None => None,
        };
        let battery: Option<Micro> = match ups {
            Some(reading) => reading.battery_voltage_v,
            None => None,
        };
        self.ups_input_v.push_back(input);
        self.ups_battery_v.push_back(battery);
    }

    /// The highest battery voltage among the last `secs` rows. The load cycles
    /// quickly, so the peaks are close to the voltage at rest. `None` where no
    /// row of the window holds a measurement.
    pub fn max_battery_voltage_recent(&self, secs: usize) -> (voltage: Option<Micro>)
        ensures
            voltage == highest(recent(self.sensor_grid_v@, secs as nat)),
    {
        let len: usize = self.sensor_grid_v.len();
        let take: usize = if secs < len {
            secs
        } else {
            len
        };
        let first: usize = len - take;
        let ghost window = recent(self.sensor_grid_v@, secs as nat);
        assert(window =~= self.sensor_grid_v@.skip(first as int));
        let mut best: Option<Micro> = None;
        let mut i: usize = first;
        assert(window.take(0) =~= Seq::empty());
        while i < len
            invariant
                first <= i <= len,
                len == self.sensor_grid_v@.len(),
                window == self.sensor_grid_v@.skip(first as int),
                best == highest(window.take(i - first)),
            decreases len - i,
        {
            let value: Option<Micro> = self.sensor_grid_v[i];
            assert(window.take(i + 1 - first).drop_last() =~= window.take(i - first));
            assert(window.take(i + 1 - first).last() == value);
            best = match (best, value) {
                (None, value) => value,
                (best, None) => best,
                (Some(x), Some(y)) => if x < y {
                    Some(y)
                } else {
                    Some(x)
                },
            };
            i = i + 1;
        }
        assert(window.take(len - first) =~= window);
        best
    }
}

// ---------------------------------------------------------------------------
// The whole
// ---------------------------------------------------------------------------
/// Everything that the tasks of the unit share and that changes quickly.
#[derive(Debug)]
pub struct InnerState {
    pub sensors: Vec<SensorReading>,
    pub ups: Option<UpsReading>,
    /// The state of the relays as it was last published, readable while a
    /// changeover holds the controller.
    pub published_state: RelayState,
    pub live: LiveBuffer,
    pub auto: AutoState,
}

/// The unit: its shared state, the controller of its relays, and what is known
/// of the database, where there is one.
#[derive(Debug)]
pub struct AppState {
    pub inner: InnerState,
    pub relay: RelayController,
    pub db: Option<Db>,
}

impl AppState {
    /// The unit at boot: nothing measured, no database, and the state of the
    /// relays published.
    pub fn new(relay: RelayController) -> (app: Self)
        ensures
            app.relay == relay,
            app.inner.published_state == relay@,
            app.inner.sensors@.len() == 0,
            app.inner.ups is None,
            app.inner.live.aligned(),
            app.inner.live.ts@.len() == 0,
            app.inner.auto == auto_at_boot(),
            app.db is None,
    {
        let initial_state: RelayState = relay.current_state();
        AppState {
            inner: InnerState {
                sensors: Vec::new(),
                ups: None,
                published_state: initial_state,
                live: LiveBuffer::new(),
                auto: AutoState::default(),
            },
            relay,
            db: None,
        }
    }
}

} // verus!
