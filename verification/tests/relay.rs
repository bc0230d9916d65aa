use solar_relay::relay::{
    PinLevels, RelayController, RelayError, RelayState, SwitchAction, SwitchEvent, SwitchRun, RELAY_SETTLE_MIN,
};
use solar_relay::state::Network;

const HIGH: PinLevels = PinLevels { grid_low: false, solar_low: false };
const GRID: PinLevels = PinLevels { grid_low: true, solar_low: false };
const SOLAR: PinLevels = PinLevels { grid_low: false, solar_low: true };
const BOTH: PinLevels = PinLevels { grid_low: true, solar_low: true };

/// Carries a changeover through. The pins read as `forced` says for each reading,
/// and else as they are driven. Hands back the actions and the outcome.
fn carry_out(
    relay: &mut RelayController,
    mut run: SwitchRun,
    forced: &[Option<PinLevels>],
) -> (Vec<SwitchAction>, Result<(), RelayError>) {
    let mut driven = BOTH;
    let mut readings = forced.iter();
    let mut actions = Vec::new();
    loop {
        let action = run.action();
        actions.push(action);
        let event = match action {
            SwitchAction::OpenAll => {
                driven = HIGH;
                SwitchEvent::Performed
            }
            SwitchAction::Sleep(_) => SwitchEvent::Performed,
            SwitchAction::ReadPins => SwitchEvent::Pins(readings.next().copied().flatten().unwrap_or(driven)),
            SwitchAction::Close(Network::Grid) => {
                driven.grid_low = true;
                SwitchEvent::Performed
            }
            SwitchAction::Close(Network::Solar) => {
                driven.solar_low = true;
                SwitchEvent::Performed
            }
            SwitchAction::Finish(outcome) => return (actions, outcome),
        };
        assert!(driven != BOTH);
        run.advance(relay, event);
    }
}

#[test]
fn next_target_from_grid_is_solar() {
    assert_eq!(RelayState::Grid.next_target(), Network::Solar);
}

#[test]
fn next_target_from_solar_is_grid() {
    assert_eq!(RelayState::Solar.next_target(), Network::Grid);
}

#[test]
fn next_target_from_open_is_grid() {
    // From the safe state the toggle goes back to the nominal source.
    assert_eq!(RelayState::Open.next_target(), Network::Grid);
}

#[test]
fn relay_settle_min_is_at_least_500ms() {
    assert!(RELAY_SETTLE_MIN >= 500);
}

#[test]
fn a_changeover_breaks_before_it_makes() {
    let mut relay = RelayController::new();
    let run = relay.switch_to(Network::Solar, 2_000);
    assert_eq!(relay.current_state(), RelayState::Open);
    let (actions, outcome) = carry_out(&mut relay, run, &[]);
    assert_eq!(outcome, Ok(()));
    assert_eq!(relay.current_state(), RelayState::Solar);
    assert_eq!(
        actions,
        vec![
            SwitchAction::OpenAll,
            SwitchAction::Sleep(2_000),
            SwitchAction::ReadPins,
            SwitchAction::Close(Network::Solar),
            SwitchAction::ReadPins,
            SwitchAction::Finish(Ok(())),
        ]
    );
    let run = relay.switch_to(Network::Grid, 2_000);
    let (_, outcome) = carry_out(&mut relay, run, &[]);
    assert_eq!(outcome, Ok(()));
    assert_eq!(relay.current_state(), RelayState::Grid);
}

#[test]
fn the_pause_is_never_too_short() {
    for (asked, given) in [(0, 500), (499, 500), (500, 500), (501, 501), (u64::MAX, u64::MAX)] {
        let mut relay = RelayController::new();
        let run = relay.switch_to(Network::Grid, asked);
        let (actions, _) = carry_out(&mut relay, run, &[]);
        assert_eq!(actions[1], SwitchAction::Sleep(given));
    }
}

#[test]
fn a_stuck_pin_stops_the_changeover() {
    let mut relay = RelayController::new();
    let run = relay.switch_to(Network::Solar, 500);
    let (actions, outcome) = carry_out(&mut relay, run, &[Some(GRID), Some(GRID)]);
    let expected = Err(RelayError::StateMismatch { expected: RelayState::Open, grid_low: true, solar_low: false });
    assert_eq!(outcome, expected);
    assert_eq!(relay.current_state(), RelayState::Open);
    assert!(!actions.contains(&SwitchAction::Close(Network::Solar)));
    assert_eq!(actions.iter().filter(|a| **a == SwitchAction::OpenAll).count(), 2);
}

#[test]
fn a_stuck_pin_that_lets_go_is_reported_as_read() {
    let mut relay = RelayController::new();
    let run = relay.switch_to(Network::Grid, 500);
    let (_, outcome) = carry_out(&mut relay, run, &[Some(BOTH), None]);
    let expected = Err(RelayError::StateMismatch { expected: RelayState::Open, grid_low: false, solar_low: false });
    assert_eq!(outcome, expected);
}

#[test]
fn a_failed_check_opens_both_relays() {
    let mut relay = RelayController::new();
    let run = relay.switch_to(Network::Solar, 500);
    let (actions, outcome) = carry_out(&mut relay, run, &[None, Some(BOTH)]);
    assert_eq!(outcome, Err(RelayError::BothClosed { grid_low: true, solar_low: true }));
    assert_eq!(relay.current_state(), RelayState::Open);
    assert_eq!(actions[actions.len() - 2], SwitchAction::OpenAll);

    let run = relay.switch_to(Network::Solar, 500);
    let (_, outcome) = carry_out(&mut relay, run, &[None, Some(HIGH)]);
    let expected = Err(RelayError::StateMismatch { expected: RelayState::Solar, grid_low: false, solar_low: false });
    assert_eq!(outcome, expected);
}

#[test]
fn an_event_out_of_place_changes_nothing() {
    let mut relay = RelayController::new();
    let mut run = relay.switch_to(Network::Grid, 500);
    let before = run;
    run.advance(&mut relay, SwitchEvent::Pins(GRID));
    assert_eq!(run, before);
    assert_eq!(relay.current_state(), RelayState::Open);
}

#[test]
fn verify_holds_pins_against_the_state() {
    let mut relay = RelayController::new();
    assert_eq!(relay.verify(HIGH), Ok(()));
    assert_eq!(
        relay.verify(SOLAR),
        Err(RelayError::StateMismatch { expected: RelayState::Open, grid_low: false, solar_low: true })
    );
    let run = relay.switch_to(Network::Grid, 500);
    carry_out(&mut relay, run, &[]).1.unwrap();
    assert_eq!(relay.verify(GRID), Ok(()));
    assert_eq!(relay.current_state(), RelayState::Grid);
    assert_eq!(relay.verify(BOTH), Err(RelayError::BothClosed { grid_low: true, solar_low: true }));
    assert_eq!(relay.current_state(), RelayState::Open);
    assert_eq!(relay.verify(HIGH), Ok(()));
}

#[test]
fn open_all_forgets_the_state() {
    let mut relay = RelayController::new();
    let run = relay.switch_to(Network::Grid, 500);
    carry_out(&mut relay, run, &[]).1.unwrap();
    relay.open_all();
    assert_eq!(relay.current_state(), RelayState::Open);
}

#[test]
fn relay_errors_read_as_written() {
    assert_eq!(
        RelayError::BothClosed { grid_low: true, solar_low: true }.message(),
        "CATASTROPHIQUE: les deux relais commandés fermés simultanément (grid_low=true, solar_low=true)"
    );
    assert_eq!(
        RelayError::StateMismatch { expected: RelayState::Solar, grid_low: true, solar_low: false }.message(),
        "incohérence GPIO/état logiciel: state=Solar mais grid_low=true solar_low=false"
    );
}

#[test]
fn relay_states_and_networks_have_names() {
    assert_eq!(RelayState::Open.name(), "open");
    assert_eq!(RelayState::Grid.name(), "grid");
    assert_eq!(RelayState::Solar.name(), "solar");
    assert_eq!(Network::Grid.name(), "grid");
    assert_eq!(Network::Solar.name(), "solar");
    assert_eq!(RelayState::Open.label(), format!("{:?}", RelayState::Open));
    assert_eq!(RelayState::Grid.label(), format!("{:?}", RelayState::Grid));
    assert_eq!(RelayState::Solar.label(), format!("{:?}", RelayState::Solar));
}
