//! The watchdog: holds the pins against the controller at short intervals.

use vstd::prelude::*;
use vstd::string::*;

use crate::clock::Instant;
use crate::db::RelayEvent;
use crate::relay::{check_report, state_after_check, PinLevels, RelayController, RelayError, RelayState};
use crate::state::{AutoState, InnerState};

verus! {

/// Milliseconds between two checks.
pub const WATCHDOG_INTERVAL: u64 = 500;

/// One check. Where the pins do not show the state that the controller believes
/// in, the controller takes both relays as open, that state is published, and the
/// time counts as that of a changeover; the caller drives both pins HIGH. While a
/// changeover holds the controller there is no check.
pub fn check_pins(
    relay: &mut RelayController,
    inner: &mut InnerState,
    pins: PinLevels,
    now: Instant,
) -> (report: Result<(), RelayError>)
    ensures
        report == check_report(old(relay)@, pins),
        final(relay)@ == state_after_check(old(relay)@, pins),
        report is Ok ==> *final(inner) == *old(inner),
        report is Err ==> *final(inner) == (InnerState {
            published_state: RelayState::Open,
            auto: AutoState { last_switch_at: Some(now), ..old(inner).auto },
            ..*old(inner)
        }),
        old(inner).published_state == old(relay)@ ==> final(inner).published_state == final(relay)@,
{
    let report: Result<(), RelayError> = relay.verify(pins);
    if report.is_err() {
        inner.published_state = relay.current_state();
        inner.auto.last_switch_at = Some(now);
    }
    report
}

/// The correction that a check led to, for the audit trail.
pub fn watchdog_event(relay: &RelayController, report: Result<(), RelayError>) -> (event: Option<
    RelayEvent,
>)
    ensures
        match event {
            Some(event) => report is Err && event.state@ == relay@.spec_name() && event.reason@
                == "watchdog"@,
            None => report is Ok,
        },
{
    match report {
        Ok(()) => None,
        Err(_) => Some(
            RelayEvent { state: relay.current_state().name(), reason: "watchdog".to_owned() },
        ),
    }
}

} // verus!
