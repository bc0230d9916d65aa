//! What clients are answered.

use vstd::prelude::*;
use vstd::string::*;
use std::collections::VecDeque;

use crate::auto::MIN_SWITCH_GAP;
use crate::clock::Instant;
use crate::db::{Db, RelayEvent};
use crate::decimal::Micro;
use crate::history::{range_named, Range};
use crate::relay::{run_start, RelayController, RelayError, RelayState, SwitchRun};
use crate::state::{AutoState, InnerState, LiveBuffer, SensorReading, UpsReading, LIVE_BUFFER_CAPACITY};

verus! {

/// The pause, in milliseconds, that a changeover by hand asks for.
pub const SWITCH_UX_DELAY: u64 = 2_000;

/// An answer that is a status and a text.
#[derive(Debug)]
pub struct Reply {
    /// The HTTP status.
    pub status: u16,
    pub text: String,
}

// ---------------------------------------------------------------------------
// The status
// ---------------------------------------------------------------------------
/// What the unit says of itself.
#[derive(Debug)]
pub struct StatusResponse {
    pub relay_state: RelayState,
    pub switching: bool,
    pub sensors: Vec<SensorReading>,
    pub ups: Option<UpsReading>,
    pub db_connected: bool,
}

/// What the unit says of itself. `switching` tells whether a changeover holds the
/// controller of the relays; the state that was last published is told either way.
pub fn get_status(inner: &InnerState, switching: bool, db: Option<&Db>) -> (status: StatusResponse)
    ensures
        status.relay_state == inner.published_state,
        status.switching == switching,
        status.sensors@ == inner.sensors@,
        status.ups == inner.ups,
        status.db_connected == (db matches Some(db) && db@.connected),
{
    let db_connected: bool = match db {
        Some(db) => db.is_connected(),
        None => false,
    };
    let ups: Option<UpsReading> = match &inner.ups {
        Some(reading) => Some(reading.clone()),
        None => None,
    };
    StatusResponse {
        relay_state: inner.published_state,
        switching,
        sensors: readings_of(inner.sensors.as_slice()),
        ups,
        db_connected,
    }
}

/// A copy of the readings.
fn readings_of(sensors: &[SensorReading]) -> (copy: Vec<SensorReading>)
    ensures
        copy@ == sensors@,
{
    let mut copy: Vec<SensorReading> = Vec::new();
    let mut i: usize = 0;
    while i < sensors.len()
        invariant
            i <= sensors@.len(),
            copy@ == sensors@.take(i as int),
        decreases sensors@.len() - i,
    {
        copy.push(sensors[i]);
        i = i + 1;
        assert(copy@ =~= sensors@.take(i as int));
    }
    assert(copy@ =~= sensors@);
    copy
}

// ---------------------------------------------------------------------------
// The live buffer
// ---------------------------------------------------------------------------
/// The live buffer, a column per quantity, the oldest entry first.
#[derive(Debug)]
pub struct LiveHistoryResponse {
    pub capacity: usize,
    pub ts: Vec<i64>,
    pub sensor_grid_v: Vec<Option<Micro>>,
    pub sensor_solar_v: Vec<Option<Micro>>,
    pub ups_input_v: Vec<Option<Micro>>,
    pub ups_battery_v: Vec<Option<Micro>>,
}

/// The entries of a column, in order.
fn listed<T: Copy>(column: &VecDeque<T>) -> (list: Vec<T>)
    ensures
        list@ == column@,
{
    let mut list: Vec<T> = Vec::new();
    let mut i: usize = 0;
    while i < column.len()
        invariant
            i <= column@.len(),
            list@ == column@.take(i as int),
        decreases column@.len() - i,
    {
        list.push(column[i]);
        i = i + 1;
        assert(list@ =~= column@.take(i as int));
    }
    assert(list@ =~= column@);
    list
}

/// The live buffer as clients get it.
pub fn get_live_history(live: &LiveBuffer) -> (history: LiveHistoryResponse)
    ensures
        history.capacity == LIVE_BUFFER_CAPACITY,
        history.ts@ == live.ts@,
        history.sensor_grid_v@ == live.sensor_grid_v@,
        history.sensor_solar_v@ == live.sensor_solar_v@,
        history.ups_input_v@ == live.ups_input_v@,
        history.ups_battery_v@ == live.ups_battery_v@,
{
    LiveHistoryResponse {
        capacity: LIVE_BUFFER_CAPACITY,
        ts: listed(&live.ts),
        sensor_grid_v: listed(&live.sensor_grid_v),
        sensor_solar_v: listed(&live.sensor_solar_v),
        ups_input_v: listed(&live.ups_input_v),
        ups_battery_v: listed(&live.ups_battery_v),
    }
}

// ---------------------------------------------------------------------------
// A changeover by hand
// ---------------------------------------------------------------------------
/// Answers a client who asks for a changeover. It is refused at once while another
/// one holds the controller, so that requests never queue up: `relay` is then
/// `None`. Else a toggle starts.
pub fn post_switch(relay: Option<&mut RelayController>) -> (started: Result<SwitchRun, Reply>)
    ensures
        match relay {
            Some(relay) => started == Ok::<SwitchRun, Reply>(
                run_start((*relay)@.spec_next_target(), SWITCH_UX_DELAY),
            ) && final(relay)@ == RelayState::Open,
            None => started matches Err(reply) && reply.status == 409 && reply.text@
                == "switch déjà en cours"@,
        },
{
    match relay {
        Some(relay) => {
            let target = relay.current_state().next_target();
            Ok(relay.switch_to(target, SWITCH_UX_DELAY))
        },
        None => Err(Reply { status: 409, text: "switch déjà en cours".to_owned() }),
    }
}

/// The automatic changeover after one by hand, which stands for
/// `MIN_SWITCH_GAP`.
pub open spec fn auto_after_manual(auto: AutoState, now: Instant) -> AutoState {
    AutoState {
        last_switch_at: Some(now),
        manual_override_until: Some(now.spec_later_by(MIN_SWITCH_GAP)),
        ..auto
    }
}

/// Takes in how a changeover by hand ended: publishes the state of the relays,
/// keeps the time and until when it stands, succeeded or not, and answers the
/// client.
pub fn finish_post_switch(
    inner: &mut InnerState,
    now: Instant,
    relay: &RelayController,
    outcome: Result<(), RelayError>,
) -> (reply: Reply)
    ensures
        *final(inner) == (InnerState {
            published_state: relay@,
            auto: auto_after_manual(old(inner).auto, now),
            ..*old(inner)
        }),
        match outcome {
            Ok(()) => reply.status == 202 && reply.text@.len() == 0,
            Err(error) => reply.status == 500 && reply.text@ == error.spec_message(),
        },
{
    inner.published_state = relay.current_state();
    inner.auto.last_switch_at = Some(now);
    inner.auto.manual_override_until = Some(now.later_by(MIN_SWITCH_GAP));
    match outcome {
        Ok(()) => {
            proof {
                reveal_strlit("");
            }
            Reply { status: 202, text: "".to_owned() }
        },
        Err(error) => Reply { status: 500, text: error.message() },
    }
}

/// The changeover by hand for the audit trail, where it succeeded.
pub fn manual_event(relay: &RelayController, outcome: Result<(), RelayError>) -> (event: Option<
    RelayEvent,
>)
    ensures
        match event {
            Some(event) => outcome is Ok && event.state@ == relay@.spec_name() && event.reason@
                == "manual"@,
            None => outcome is Err,
        },
{
    match outcome {
        Ok(()) => Some(
            RelayEvent { state: relay.current_state().name(), reason: "manual".to_owned() },
        ),
        Err(_) => None,
    }
}

// ---------------------------------------------------------------------------
// The history
// ---------------------------------------------------------------------------
/// What a client asks of the history.
#[derive(Debug)]
pub struct HistoryQuery {
    pub range: Option<String>,
}

/// The window that a query asks for: an hour where it names none that there is.
pub open spec fn range_asked(named: Option<Seq<char>>) -> Range {
    match named {
        Some(text) => match range_named(text) {
            Some(range) => range,
            None => Range::Hour,
        },
        None => Range::Hour,
    }
}

/// Answers a client who asks for the history: with the window to fetch, or with
/// a refusal where there is no database or it does not answer.
pub fn get_history(db: Option<&Db>, params: &HistoryQuery) -> (answer: Result<Range, Reply>)
    ensures
        match db {
            Some(db) => if db@.connected {
                answer == Ok::<Range, Reply>(
                    range_asked(
                        match params.range {
                            Some(text) => Some(text@),
                            None => None,
                        },
                    ),
                )
            } else {
                answer matches Err(reply) && reply.status == 503 && reply.text@
                    == "DB déconnectée — réessayer plus tard"@
            },
            None => answer matches Err(reply) && reply.status == 503 && reply.text@
                == "DB non configurée"@,
        },
{
    match db {
        Some(db) => {
            if !db.is_connected() {
                return Err(
                    Reply { status: 503, text: "DB déconnectée — réessayer plus tard".to_owned() },
                );
            }
        },
        None => {
            return Err(Reply { status: 503, text: "DB non configurée".to_owned() });
        },
    }
    match &params.range {
        Some(text) => match Range::from_str(text.as_str()) {
            Ok(range) => Ok(range),
            Err(()) => Ok(Range::Hour),
        },
        None => Ok(Range::Hour),
    }
}

/// Answers a client whose history could not be fetched.
pub fn history_failed(error: &str) -> (reply: Reply)
    ensures
        reply.status == 500,
        reply.text@ == "Erreur DB: "@ + error@,
{
    let mut text: String = "Erreur DB: ".to_owned();
    text.append(error);
    Reply { status: 500, text }
}

} // verus!
