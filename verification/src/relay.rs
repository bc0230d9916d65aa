//! The two relays that put the load on the grid or on the solar inverter.
//!
//! The relay board is active LOW: a pin at LOW closes its relay. Closing both
//! relays at once shorts the grid to the inverter, so every changeover opens
//! both, waits for the contacts to release, looks at the pins and only then
//! closes one. This module decides; the caller drives the pins, waits and reads
//! them back.

use vstd::prelude::*;
use vstd::string::*;

use crate::state::Network;

verus! {

/// Shortest pause, in milliseconds, between opening the relays and closing one.
///
/// A typical release time is 10 to 15 ms. Never lower this: it is what keeps the
/// two contacts from being closed together.
pub const RELAY_SETTLE_MIN: u64 = 500;

/// Which relay is closed, as far as the controller knows.
#[derive(Debug, Clone, Copy, PartialEq, Eq, Structural)]
pub enum RelayState {
    Open,
    Grid,
    Solar,
}

/// The state in which the load is on `target`.
pub open spec fn state_on(target: Network) -> RelayState {
    match target {
        Network::Grid => RelayState::Grid,
        Network::Solar => RelayState::Solar,
    }
}

impl RelayState {
    /// Where a toggle goes from this state. The safe state `Open` leads back to
    /// the grid, the nominal source.
    pub open spec fn spec_next_target(self) -> Network {
        if self == RelayState::Grid {
            Network::Solar
        } else {
            Network::Grid
        }
    }

    /// Where a toggle goes from this state.
    pub fn next_target(self) -> (target: Network)
        ensures
            target == self.spec_next_target(),
    {
        match self {
            RelayState::Open | RelayState::Solar => Network::Grid,
            RelayState::Grid => Network::Solar,
        }
    }

    /// The state in lower case, as it is published and stored.
    pub open spec fn spec_name(self) -> Seq<char> {
        match self {
            RelayState::Open => "open"@,
            RelayState::Grid => "grid"@,
            RelayState::Solar => "solar"@,
        }
    }

    /// The state in lower case, as it is published and stored.
    pub fn name(self) -> (name: &'static str)
        ensures
            name@ == self.spec_name(),
    {
        match self {
            RelayState::Open => "open",
            RelayState::Grid => "grid",
            RelayState::Solar => "solar",
        }
    }

    /// The state as it appears in an error message.
    pub open spec fn spec_label(self) -> Seq<char> {
        match self {
            RelayState::Open => "Open"@,
            RelayState::Grid => "Grid"@,
            RelayState::Solar => "Solar"@,
        }
    }

    /// The state as it appears in an error message.
    pub fn label(self) -> (label: &'static str)
        ensures
            label@ == self.spec_label(),
    {
        match self {
            RelayState::Open => "Open",
            RelayState::Grid => "Grid",
            RelayState::Solar => "Solar",
        }
    }
}

/// What the two pins read: `true` where the pin is LOW, the relay closed.
#[derive(Debug, Clone, Copy, PartialEq, Eq, Structural)]
pub struct PinLevels {
    pub grid_low: bool,
    pub solar_low: bool,
}

/// Both pins HIGH: both relays open.
pub open spec fn all_high() -> PinLevels {
    PinLevels { grid_low: false, solar_low: false }
}

/// Why a check of the pins failed.
#[derive(Debug, Clone, Copy, PartialEq, Eq, Structural)]
pub enum RelayError {
    /// Both relays were commanded closed.
    BothClosed { grid_low: bool, solar_low: bool },
    /// The pins do not show the state that the controller believes in.
    StateMismatch { expected: RelayState, grid_low: bool, solar_low: bool },
}

/// A truth value as text.
pub open spec fn bool_text(b: bool) -> Seq<char> {
    if b {
        "true"@
    } else {
        "false"@
    }
}

/// A truth value as text.
pub fn bool_name(b: bool) -> (name: &'static str)
    ensures
        name@ == bool_text(b),
{
    if b {
        "true"
    } else {
        "false"
    }
}

impl RelayError {
    /// The sentence that describes this error.
    pub open spec fn spec_message(self) -> Seq<char> {
        match self {
            RelayError::BothClosed { grid_low, solar_low } => {
                "CATASTROPHIQUE: les deux relais commandés fermés simultanément (grid_low="@
                    + bool_text(grid_low) + ", solar_low="@ + bool_text(solar_low) + ")"@
            },
            RelayError::StateMismatch { expected, grid_low, solar_low } => {
                "incohérence GPIO/état logiciel: state="@ + expected.spec_label()
                    + " mais grid_low="@ + bool_text(grid_low) + " solar_low="@ + bool_text(
                    solar_low,
                )
            },
        }
    }

    /// The sentence that describes this error.
    pub fn message(&self) -> (message: String)
        ensures
            message@ == self.spec_message(),
    {
        match *self {
            RelayError::BothClosed { grid_low, solar_low } => {
                let mut out: String =
                    "CATASTROPHIQUE: les deux relais commandés fermés simultanément (grid_low=".to_owned();
                out.append(bool_name(grid_low));
                out.append(", solar_low=");
                out.append(bool_name(solar_low));
                out.append(")");
                out
            },
            RelayError::StateMismatch { expected, grid_low, solar_low } => {
                let mut out: String = "incohérence GPIO/état logiciel: state=".to_owned();
                out.append(expected.label());
                out.append(" mais grid_low=");
                out.append(bool_name(grid_low));
                out.append(" solar_low=");
                out.append(bool_name(solar_low));
                out
            },
        }
    }
}

// ---------------------------------------------------------------------------
// The controller
// ---------------------------------------------------------------------------
/// The state that a pair of pin levels shows; both LOW shows none.
pub open spec fn shown_state(pins: PinLevels) -> Option<RelayState> {
    match (pins.grid_low, pins.solar_low) {
        (false, false) => Some(RelayState::Open),
        (true, false) => Some(RelayState::Grid),
        (false, true) => Some(RelayState::Solar),
        (true, true) => None,
    }
}

/// What a check of the pins reports to a controller that believes in `state`.
pub open spec fn check_report(state: RelayState, pins: PinLevels) -> Result<(), RelayError> {
    if pins.grid_low && pins.solar_low {
        Err(RelayError::BothClosed { grid_low: true, solar_low: true })
    } else if shown_state(pins) == Some(state) {
        Ok(())
    } else {
        Err(
            RelayError::StateMismatch {
                expected: state,
                grid_low: pins.grid_low,
                solar_low: pins.solar_low,
            },
        )
    }
}

/// The state that a controller believes in after a check: any failure leaves
/// both relays open.
pub open spec fn state_after_check(state: RelayState, pins: PinLevels) -> RelayState {
    if check_report(state, pins) is Ok {
        state
    } else {
        RelayState::Open
    }
}

/// The belief of the unit about its relays. Its view is that state.
#[derive(Debug)]
pub struct RelayController {
    state: RelayState,
}

impl View for RelayController {
    type V = RelayState;

    closed spec fn view(&self) -> RelayState {
        self.state
    }
}

impl RelayController {
    /// A controller whose two pins start HIGH, both relays open.
    pub fn new() -> (controller: Self)
        ensures
            controller@ == RelayState::Open,
    {
        RelayController { state: RelayState::Open }
    }

    /// The state the controller believes in.
    pub fn current_state(&self) -> (state: RelayState)
        ensures
            state == self@,
    {
        self.state
    }

    /// Takes both relays as open. The caller drives both pins HIGH.
    pub fn open_all(&mut self)
        ensures
            final(self)@ == RelayState::Open,
    {
        self.state = RelayState::Open;
    }

    /// Holds the pins against the state. On an error the controller takes both
    /// relays as open, and the caller drives both pins HIGH.
    pub fn verify(&mut self, pins: PinLevels) -> (report: Result<(), RelayError>)
        ensures
            report == check_report(old(self)@, pins),
            final(self)@ == state_after_check(old(self)@, pins),
    {
        let grid_low: bool = pins.grid_low;
        let solar_low: bool = pins.solar_low;
        if grid_low && solar_low {
            self.open_all();
            return Err(RelayError::BothClosed { grid_low, solar_low });
        }
        let observed: RelayState = if grid_low {
            RelayState::Grid
        } else if solar_low {
            RelayState::Solar
        } else {
            RelayState::Open
        };
        if observed != self.state {
            let expected: RelayState = self.state;
            self.open_all();
            return Err(RelayError::StateMismatch { expected, grid_low, solar_low });
        }
        Ok(())
    }

    /// Starts a changeover to `target`: takes both relays as open and hands back
    /// the run that leads the caller through the rest. `settle` is the pause that
    /// the caller wishes for, in milliseconds.
    pub fn switch_to(&mut self, target: Network, settle: u64) -> (run: SwitchRun)
        ensures
            final(self)@ == RelayState::Open,
            run == run_start(target, settle),
    {
        self.open_all();
        SwitchRun { target, settle, phase: SwitchPhase::Opening }
    }
}

// ---------------------------------------------------------------------------
// A changeover, step by step
// ---------------------------------------------------------------------------
/// What the caller does next in a changeover.
#[derive(Debug, Clone, Copy, PartialEq, Eq)]
pub enum SwitchAction {
    /// Drive both pins HIGH.
    OpenAll,
    /// Wait this many milliseconds.
    Sleep(u64),
    /// Read both pins.
    ReadPins,
    /// Drive the pin of this network LOW, and no other.
    Close(Network),
    /// Nothing more: the changeover ended so.
    Finish(Result<(), RelayError>),
}

/// What the caller reports back.
#[derive(Debug, Clone, Copy, PartialEq, Eq, Structural)]
pub enum SwitchEvent {
    /// The action was carried out.
    Performed,
    /// The pins were read.
    Pins(PinLevels),
}

/// How far a changeover has come.
#[derive(Debug, Clone, Copy, PartialEq, Eq)]
pub enum SwitchPhase {
    /// Both relays are being opened.
    Opening,
    /// The contacts are releasing.
    Settling,
    /// The pins are looked at before anything is closed.
    Checking,
    /// A pin was still LOW: both relays are being opened again.
    Reopening,
    /// The pins are read once more, for the report.
    Reporting,
    /// The relay of the target is being closed.
    Closing,
    /// The pins are held against the new state.
    Verifying,
    /// That check failed: both relays are being opened.
    Recovering(RelayError),
    /// The changeover is over.
    Finished(Result<(), RelayError>),
}

/// A changeover in progress.
#[derive(Debug, Clone, Copy, PartialEq, Eq)]
pub struct SwitchRun {
    pub target: Network,
    pub settle: u64,
    pub phase: SwitchPhase,
}

/// A changeover before its first action.
pub open spec fn run_start(target: Network, settle: u64) -> SwitchRun {
    SwitchRun { target, settle, phase: SwitchPhase::Opening }
}

/// The pause of a changeover: what was asked for, but never less than the
/// release time of the contacts.
pub open spec fn pause(settle: u64) -> u64 {
    if settle < RELAY_SETTLE_MIN {
        RELAY_SETTLE_MIN
    } else {
        settle
    }
}

/// What a changeover asks of the caller.
pub open spec fn run_action(run: SwitchRun) -> SwitchAction {
    match run.phase {
        SwitchPhase::Opening => SwitchAction::OpenAll,
        SwitchPhase::Settling => SwitchAction::Sleep(pause(run.settle)),
        SwitchPhase::Checking => SwitchAction::ReadPins,
        SwitchPhase::Reopening => SwitchAction::OpenAll,
        SwitchPhase::Reporting => SwitchAction::ReadPins,
        SwitchPhase::Closing => SwitchAction::Close(run.target),
        SwitchPhase::Verifying => SwitchAction::ReadPins,
        SwitchPhase::Recovering(_) => SwitchAction::OpenAll,
        SwitchPhase::Finished(outcome) => SwitchAction::Finish(outcome),
    }
}

/// Where a changeover goes from its phase on an event, with the controller in
/// `state`. An event that does not answer the pending action changes nothing.
pub open spec fn next_phase(run: SwitchRun, state: RelayState, event: SwitchEvent) -> SwitchPhase {
    match (run.phase, event) {
        (SwitchPhase::Opening, SwitchEvent::Performed) => SwitchPhase::Settling,
        (SwitchPhase::Settling, SwitchEvent::Performed) => SwitchPhase::Checking,
        (SwitchPhase::Checking, SwitchEvent::Pins(pins)) => if pins == all_high() {
            SwitchPhase::Closing
        } else {
            SwitchPhase::Reopening
        },
        (SwitchPhase::Reopening, SwitchEvent::Performed) => SwitchPhase::Reporting,
        (SwitchPhase::Reporting, SwitchEvent::Pins(pins)) => SwitchPhase::Finished(
            Err(
                RelayError::StateMismatch {
                    expected: RelayState::Open,
                    grid_low: pins.grid_low,
                    solar_low: pins.solar_low,
                },
            ),
        ),
        (SwitchPhase::Closing, SwitchEvent::Performed) => SwitchPhase::Verifying,
        (SwitchPhase::Verifying, SwitchEvent::Pins(pins)) => match check_report(state, pins) {
            Ok(()) => SwitchPhase::Finished(Ok(())),
            Err(error) => SwitchPhase::Recovering(error),
        },
        (SwitchPhase::Recovering(error), SwitchEvent::Performed) => SwitchPhase::Finished(
            Err(error),
        ),
        (phase, _) => phase,
    }
}

/// What the controller believes after the same event.
pub open spec fn next_state(run: SwitchRun, state: RelayState, event: SwitchEvent) -> RelayState {
    match (run.phase, event) {
        (SwitchPhase::Checking, SwitchEvent::Pins(pins)) => if pins == all_high() {
            state
        } else {
            RelayState::Open
        },
        (SwitchPhase::Closing, SwitchEvent::Performed) => state_on(run.target),
        (SwitchPhase::Verifying, SwitchEvent::Pins(pins)) => state_after_check(state, pins),
        (_, _) => state,
    }
}

impl SwitchRun {
    /// What the caller does next.
    pub fn action(&self) -> (action: SwitchAction)
        ensures
            action == run_action(*self),
    {
        match self.phase {
            SwitchPhase::Opening => SwitchAction::OpenAll,
            SwitchPhase::Settling => {
                let pause: u64 = if self.settle < RELAY_SETTLE_MIN {
                    RELAY_SETTLE_MIN
                } else {
                    self.settle
                };
                SwitchAction::Sleep(pause)
            },
            SwitchPhase::Checking => SwitchAction::ReadPins,
            SwitchPhase::Reopening => SwitchAction::OpenAll,
            SwitchPhase::Reporting => SwitchAction::ReadPins,
            SwitchPhase::Closing => SwitchAction::Close(self.target),
            SwitchPhase::Verifying => SwitchAction::ReadPins,
            SwitchPhase::Recovering(_) => SwitchAction::OpenAll,
            SwitchPhase::Finished(outcome) => SwitchAction::Finish(outcome),
        }
    }

    /// Takes in what the caller reports and moves on.
    pub fn advance(&mut self, controller: &mut RelayController, event: SwitchEvent)
        ensures
            final(self).target == old(self).target,
            final(self).settle == old(self).settle,
            final(self).phase == next_phase(*old(self), old(controller)@, event),
            final(controller)@ == next_state(*old(self), old(controller)@, event),
    {
        match (self.phase, event) {
            (SwitchPhase::Opening, SwitchEvent::Performed) => {
                self.phase = SwitchPhase::Settling;
            },
            (SwitchPhase::Settling, SwitchEvent::Performed) => {
                self.phase = SwitchPhase::Checking;
            },
            (SwitchPhase::Checking, SwitchEvent::Pins(pins)) => {
                if pins.grid_low || pins.solar_low {
                    controller.open_all();
                    self.phase = SwitchPhase::Reopening;
                } else {
                    self.phase = SwitchPhase::Closing;
                }
            },
            (SwitchPhase::Reopening, SwitchEvent::Performed) => {
                self.phase = SwitchPhase::Reporting;
            },
            (SwitchPhase::Reporting, SwitchEvent::Pins(pins)) => {
                self.phase = SwitchPhase::Finished(
                    Err(
                        RelayError::StateMismatch {
                            expected: RelayState::Open,
                            grid_low: pins.grid_low,
                            solar_low: pins.solar_low,
                        },
                    ),
                );
            },
            (SwitchPhase::Closing, SwitchEvent::Performed) => {
                controller.state = match self.target {
                    Network::Grid => RelayState::Grid,
                    Network::Solar => RelayState::Solar,
                };
                self.phase = SwitchPhase::Verifying;
            },
            (SwitchPhase::Verifying, SwitchEvent::Pins(pins)) => {
                self.phase = match controller.verify(pins) {
                    Ok(()) => SwitchPhase::Finished(Ok(())),
                    Err(error) => SwitchPhase::Recovering(error),
                };
            },
            (SwitchPhase::Recovering(error), SwitchEvent::Performed) => {
                self.phase = SwitchPhase::Finished(Err(error));
            },
            (_, _) => {},
        }
    }
}

} // verus!
