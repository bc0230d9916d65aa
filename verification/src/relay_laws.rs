//! What holds of every changeover, whatever the pins read along the way.

use vstd::prelude::*;

use crate::relay::{
    all_high, check_report, next_phase, next_state, pause, run_action, run_start, shown_state,
    state_after_check, state_on, PinLevels, RelayError, RelayState, SwitchAction, SwitchEvent, SwitchPhase,
    SwitchRun, RELAY_SETTLE_MIN,
};
use crate::state::Network;

verus! {

/// The unit in the middle of a changeover: what the controller believes, how
/// far the run has come, and how the pins were last driven.
pub struct Changeover {
    pub state: RelayState,
    pub run: SwitchRun,
    pub driven: PinLevels,
}

/// How the pins are driven once an action has been carried out.
pub open spec fn driven_after(action: SwitchAction, driven: PinLevels) -> PinLevels {
    match action {
        SwitchAction::OpenAll => all_high(),
        SwitchAction::Close(Network::Grid) => PinLevels { grid_low: true, ..driven },
        SwitchAction::Close(Network::Solar) => PinLevels { solar_low: true, ..driven },
        _ => driven,
    }
}

/// The answer to an action, where the pins would read `reading`.
pub open spec fn answer(action: SwitchAction, reading: PinLevels) -> SwitchEvent {
    if action is ReadPins {
        SwitchEvent::Pins(reading)
    } else {
        SwitchEvent::Performed
    }
}

/// One action carried out and answered.
pub open spec fn one_step(now: Changeover, reading: PinLevels) -> Changeover {
    let action = run_action(now.run);
    let event = answer(action, reading);
    Changeover {
        state: next_state(now.run, now.state, event),
        run: SwitchRun { phase: next_phase(now.run, now.state, event), ..now.run },
        driven: driven_after(action, now.driven),
    }
}

/// A changeover to `target` after as many steps as there are readings, from pins
/// driven in any way.
pub open spec fn after_steps(
    target: Network,
    settle: u64,
    driven: PinLevels,
    readings: Seq<PinLevels>,
) -> Changeover
    decreases readings.len(),
{
    if readings.len() == 0 {
        Changeover { state: RelayState::Open, run: run_start(target, settle), driven }
    } else {
        one_step(
            after_steps(target, settle, driven, readings.drop_last()),
            readings.last(),
        )
    }
}

/// Only the pin of `target` LOW.
pub open spec fn only_low(target: Network) -> PinLevels {
    PinLevels { grid_low: target == Network::Grid, solar_low: target == Network::Solar }
}

/// What each phase says of the steps that led to it.
spec fn phase_history(now: Changeover, target: Network, settle: u64, readings: Seq<PinLevels>) -> bool {
    &&& now.run.target == target
    &&& now.run.settle == settle
    &&& match now.run.phase {
        SwitchPhase::Opening => readings.len() == 0 && now.state == RelayState::Open,
        SwitchPhase::Settling => readings.len() == 1 && now.state == RelayState::Open && now.driven
            == all_high(),
        SwitchPhase::Checking => readings.len() == 2 && now.state == RelayState::Open && now.driven
            == all_high(),
        SwitchPhase::Closing => readings.len() == 3 && now.state == RelayState::Open && now.driven
            == all_high() && readings[2] == all_high(),
        SwitchPhase::Reopening => readings.len() == 3 && now.state == RelayState::Open && now.driven
            == all_high() && readings[2] != all_high(),
        SwitchPhase::Reporting => readings.len() == 4 && now.state == RelayState::Open && now.driven
            == all_high() && readings[2] != all_high(),
        SwitchPhase::Verifying => readings.len() == 4 && now.state == state_on(target) && now.driven
            == only_low(target) && readings[2] == all_high(),
        SwitchPhase::Recovering(error) => readings.len() == 5 && now.state == RelayState::Open
            && now.driven == only_low(target) && readings[2] == all_high() && check_report(
            state_on(target),
            readings[4],
        ) == Err::<(), RelayError>(error),
        SwitchPhase::Finished(outcome) => {
            &&& readings.len() >= 5
            &&& outcome is Ok ==> now.state == state_on(target) && now.driven == only_low(target)
                && readings[2] == all_high() && shown_state(readings[4]) == Some(state_on(target))
            &&& outcome is Err ==> now.state == RelayState::Open && now.driven == all_high() && (
            readings[2] != all_high() || shown_state(readings[4]) != Some(state_on(target)))
        },
    }
}

proof fn lemma_phase_history(target: Network, settle: u64, driven: PinLevels, readings: Seq<PinLevels>)
    ensures
        phase_history(after_steps(target, settle, driven, readings), target, settle, readings),
        readings.len() >= 6 ==> after_steps(
            target,
            settle,
            driven,
            readings,
        ).run.phase is Finished,
    decreases readings.len(),
{
    if readings.len() > 0 {
        lemma_phase_history(target, settle, driven, readings.drop_last());
        let before = after_steps(target, settle, driven, readings.drop_last());
        assert(forall|i: int| 0 <= i < readings.len() - 1 ==> readings.drop_last()[i] == readings[i]);
        assert(readings.last() == readings[readings.len() - 1]);
        match before.run.phase {
            SwitchPhase::Checking => {
                assert(readings.len() == 3);
            },
            SwitchPhase::Verifying => {
                assert(readings.len() == 5);
            },
            _ => {},
        }
    }
}

/// From its first action on, no changeover ever drives both pins LOW together.
pub proof fn law_never_both_closed(
    target: Network,
    settle: u64,
    driven: PinLevels,
    readings: Seq<PinLevels>,
)
    requires
        readings.len() > 0,
    ensures
        !(after_steps(target, settle, driven, readings).driven.grid_low && after_steps(
            target,
            settle,
            driven,
            readings,
        ).driven.solar_low),
{
    lemma_phase_history(target, settle, driven, readings);
}

/// Break before make: a relay is only ever closed as the fourth action of a
/// changeover, and it is that of the target. Before it both relays were opened,
/// a pause passed that is as long as was asked for and never under
/// `RELAY_SETTLE_MIN`, and both pins then read HIGH.
pub proof fn law_break_before_make(
    target: Network,
    settle: u64,
    driven: PinLevels,
    readings: Seq<PinLevels>,
    closed: Network,
)
    requires
        run_action(after_steps(target, settle, driven, readings).run) == SwitchAction::Close(closed),
    ensures
        closed == target,
        readings.len() == 3,
        run_action(after_steps(target, settle, driven, readings.take(0)).run)
            == SwitchAction::OpenAll,
        run_action(after_steps(target, settle, driven, readings.take(1)).run)
            == SwitchAction::Sleep(pause(settle)),
        pause(settle) >= settle && pause(settle) >= RELAY_SETTLE_MIN >= 500,
        run_action(after_steps(target, settle, driven, readings.take(2)).run)
            == SwitchAction::ReadPins,
        readings[2] == all_high(),
        after_steps(target, settle, driven, readings).driven == all_high(),
{
    lemma_phase_history(target, settle, driven, readings);
    let one = readings.take(1);
    let two = readings.take(2);
    assert(readings.take(0) =~= Seq::empty());
    assert(one.drop_last() =~= Seq::empty());
    assert(two.drop_last() =~= one);
    reveal_with_fuel(after_steps, 3);
}

/// A changeover ends after at most six actions.
pub proof fn law_changeover_ends(
    target: Network,
    settle: u64,
    driven: PinLevels,
    readings: Seq<PinLevels>,
)
    requires
        readings.len() >= 6,
    ensures
        run_action(after_steps(target, settle, driven, readings).run) is Finish,
{
    lemma_phase_history(target, settle, driven, readings);
}

/// A changeover that succeeded left exactly the relay of its target closed, and
/// the pins read so; one that failed left both relays open. It succeeds if and
/// only if both pins read HIGH after the pause and the target alone read LOW
/// once it was closed.
pub proof fn law_changeover_outcome(
    target: Network,
    settle: u64,
    driven: PinLevels,
    readings: Seq<PinLevels>,
    outcome: Result<(), RelayError>,
)
    requires
        run_action(after_steps(target, settle, driven, readings).run) == SwitchAction::Finish(
            outcome,
        ),
    ensures
        outcome is Ok <==> (readings[2] == all_high() && readings[4] == only_low(target)),
        outcome is Ok ==> after_steps(target, settle, driven, readings).state == state_on(target),
        outcome is Ok ==> after_steps(target, settle, driven, readings).driven == only_low(target),
        outcome is Err ==> after_steps(target, settle, driven, readings).state == RelayState::Open,
        outcome is Err ==> after_steps(target, settle, driven, readings).driven == all_high(),
{
    lemma_phase_history(target, settle, driven, readings);
}

/// A check passes exactly when the pins show the state that the controller
/// believes in, and it leaves that state alone; whenever it fails, the
/// controller takes both relays as open.
pub proof fn law_check_is_safe(state: RelayState, pins: PinLevels)
    ensures
        check_report(state, pins) is Ok <==> shown_state(pins) == Some(state),
        check_report(state, pins) is Ok ==> state_after_check(state, pins) == state,
        check_report(state, pins) is Err ==> state_after_check(state, pins) == RelayState::Open,
        pins.grid_low && pins.solar_low ==> check_report(state, pins) is Err,
{
}

/// A toggle never stays where it is, and two toggles in a row from a closed
/// state come back to it.
pub proof fn law_toggle(state: RelayState)
    ensures
        state_on(state.spec_next_target()) != state,
        state != RelayState::Open ==> state_on(
            state_on(state.spec_next_target()).spec_next_target(),
        ) == state,
{
}

/// A whole changeover, action by action, for any reading of the pins: both relays are
/// opened, a pause passes, the pins are read. Only where both then read HIGH is the relay
/// of the target closed and the pins read again; the changeover succeeds where the target
/// alone then reads LOW, and else opens both relays before it reports what was read. A
/// pin that was still LOW after the pause has both relays opened and is reported as it
/// reads then.
pub proof fn law_changeover_script(
    target: Network,
    settle: u64,
    driven: PinLevels,
    readings: Seq<PinLevels>,
)
    requires
        readings.len() == 6,
    ensures
        ({
            let action = |n: int| run_action(after_steps(target, settle, driven, readings.take(n)).run);
            let state = |n: int| after_steps(target, settle, driven, readings.take(n)).state;
            let first = readings[2];
            let second = readings[4];
            let wanted_grid = target == Network::Grid;
            &&& action(0) == SwitchAction::OpenAll
            &&& action(1) matches SwitchAction::Sleep(millis) && millis == if settle > 500 {
                settle
            } else {
                500
            }
            &&& action(2) == SwitchAction::ReadPins
            &&& state(0) is Open && state(1) is Open && state(2) is Open && state(3) is Open
            &&& !first.grid_low && !first.solar_low ==> {
                &&& action(3) == SwitchAction::Close(target)
                &&& action(4) == SwitchAction::ReadPins
                &&& second.grid_low == wanted_grid && second.solar_low != wanted_grid ==> {
                    &&& action(5) == SwitchAction::Finish(Ok(()))
                    &&& state(5) == if wanted_grid {
                        RelayState::Grid
                    } else {
                        RelayState::Solar
                    }
                }
                &&& second.grid_low && second.solar_low ==> {
                    &&& action(5) == SwitchAction::OpenAll
                    &&& action(6) == SwitchAction::Finish(
                        Err(RelayError::BothClosed { grid_low: true, solar_low: true }),
                    )
                    &&& state(6) is Open
                }
                &&& !(second.grid_low == wanted_grid && second.solar_low != wanted_grid) && !(
                second.grid_low && second.solar_low) ==> {
                    &&& action(5) == SwitchAction::OpenAll
                    &&& action(6) == SwitchAction::Finish(
                        Err(
                            RelayError::StateMismatch {
                                expected: if wanted_grid {
                                    RelayState::Grid
                                } else {
                                    RelayState::Solar
                                },
                                grid_low: second.grid_low,
                                solar_low: second.solar_low,
                            },
                        ),
                    )
                    &&& state(6) is Open
                }
            }
            &&& first.grid_low || first.solar_low ==> {
                &&& action(3) == SwitchAction::OpenAll
                &&& action(4) == SwitchAction::ReadPins
                &&& action(5) == SwitchAction::Finish(
                    Err(
                        RelayError::StateMismatch {
                            expected: RelayState::Open,
                            grid_low: second.grid_low,
                            solar_low: second.solar_low,
                        },
                    ),
                )
                &&& state(5) is Open
            }
        }),
{
    assert(readings.take(0) =~= Seq::empty());
    assert(readings.take(1).drop_last() =~= readings.take(0));
    assert(readings.take(2).drop_last() =~= readings.take(1));
    assert(readings.take(3).drop_last() =~= readings.take(2));
    assert(readings.take(4).drop_last() =~= readings.take(3));
    assert(readings.take(5).drop_last() =~= readings.take(4));
    assert(readings.take(6).drop_last() =~= readings.take(5));
    assert(readings.take(3).last() == readings[2]);
    assert(readings.take(5).last() == readings[4]);
    let s0 = after_steps(target, settle, driven, readings.take(0));
    let s1 = after_steps(target, settle, driven, readings.take(1));
    let s2 = after_steps(target, settle, driven, readings.take(2));
    let s3 = after_steps(target, settle, driven, readings.take(3));
    let s4 = after_steps(target, settle, driven, readings.take(4));
    let s5 = after_steps(target, settle, driven, readings.take(5));
    let s6 = after_steps(target, settle, driven, readings.take(6));
    assert(s1 == one_step(s0, readings.take(1).last()));
    assert(s2 == one_step(s1, readings.take(2).last()));
    assert(s3 == one_step(s2, readings.take(3).last()));
    assert(s4 == one_step(s3, readings.take(4).last()));
    assert(s5 == one_step(s4, readings.take(5).last()));
    assert(s6 == one_step(s5, readings.take(6).last()));
}

/// A report that does not answer the pending action changes nothing: a reading where none
/// was asked for, or none where one was. Nor does any report once a changeover is over.
pub proof fn law_report_out_of_place(run: SwitchRun, state: RelayState, event: SwitchEvent)
    requires
        run_action(run) is Finish || (run_action(run) is ReadPins <==> event is Performed),
    ensures
        next_phase(run, state, event) == run.phase,
        next_state(run, state, event) == state,
{
}

/// A check passes where exactly the relay that the controller believes in reads LOW. Two
/// pins at LOW are reported as such; any other difference with the state that was
/// believed and the pins as they read. Whatever fails, both relays are taken as open.
pub proof fn law_check_reports_what_it_read(state: RelayState, pins: PinLevels)
    ensures
        check_report(state, pins) is Ok <==> (pins.grid_low <==> state == RelayState::Grid) && (
        pins.solar_low <==> state == RelayState::Solar),
        pins.grid_low && pins.solar_low ==> check_report(state, pins) == Err::<(), RelayError>(
            RelayError::BothClosed { grid_low: true, solar_low: true },
        ),
        check_report(state, pins) is Err && !(pins.grid_low && pins.solar_low) ==> check_report(
            state,
            pins,
        ) == Err::<(), RelayError>(
            RelayError::StateMismatch {
                expected: state,
                grid_low: pins.grid_low,
                solar_low: pins.solar_low,
            },
        ),
        check_report(state, pins) is Ok ==> state_after_check(state, pins) == state,
        check_report(state, pins) is Err ==> state_after_check(state, pins) == RelayState::Open,
{
}

/// A toggle goes to solar from the grid only, and to the grid from everywhere else.
pub proof fn law_toggle_leaves_the_grid(state: RelayState)
    ensures
        state.spec_next_target() == Network::Solar <==> state == RelayState::Grid,
{
}

/// States have three different names, which are those of the networks where one is
/// closed.
pub proof fn law_states_are_named_apart(a: RelayState, b: RelayState, network: Network)
    ensures
        a.spec_name() == b.spec_name() <==> a == b,
        a.spec_label() == b.spec_label() <==> a == b,
        state_on(network).spec_name() == network.spec_name(),
        a == RelayState::Open ==> a.spec_name() == "open"@ && a.spec_label() == "Open"@,
        a == RelayState::Grid ==> a.spec_name() == "grid"@ && a.spec_label() == "Grid"@,
        a == RelayState::Solar ==> a.spec_name() == "solar"@ && a.spec_label() == "Solar"@,
{
    reveal_strlit("open");
    reveal_strlit("grid");
    reveal_strlit("solar");
    reveal_strlit("Open");
    reveal_strlit("Grid");
    reveal_strlit("Solar");
    assert("open"@[0] == 'o' && "grid"@[0] == 'g' && "solar"@[0] == 's');
    assert("Open"@[0] == 'O' && "Grid"@[0] == 'G' && "Solar"@[0] == 'S');
}

/// An error names what was read, and what was expected where the pins differ from it.
pub proof fn law_error_names_what_was_read(expected: RelayState, grid_low: bool, solar_low: bool)
    ensures
        ({
            let grid = if grid_low {
                "true"@
            } else {
                "false"@
            };
            let solar = if solar_low {
                "true"@
            } else {
                "false"@
            };
            &&& RelayError::BothClosed { grid_low, solar_low }.spec_message()
                == "CATASTROPHIQUE: les deux relais commandés fermés simultanément (grid_low="@ + grid
                + ", solar_low="@ + solar + ")"@
            &&& RelayError::StateMismatch { expected, grid_low, solar_low }.spec_message()
                == "incohérence GPIO/état logiciel: state="@ + expected.spec_label()
                + " mais grid_low="@ + grid + " solar_low="@ + solar
        }),
{
}

} // verus!
