use solar_relay::relay::RelayController;
use solar_relay::state::{AppState, UpsReading};
use solar_relay::ups::{read_ups, trim, PollNote, UpsPoll};

#[test]
fn a_full_report_is_read() {
    let report = "battery.charge: 98\nbattery.runtime: 1260\nbattery.voltage: 27.30\ninput.frequency: 50.0\n\
                  input.voltage: 232.1\noutput.voltage: 230\nups.load: 12.5\nups.status:  OL CHRG \nups.model: X\n";
    let r = read_ups(report, 1_700_000_000);
    assert_eq!(r.battery_pct, Some(98_000_000));
    assert_eq!(r.runtime_s, Some(1_260));
    assert_eq!(r.battery_voltage_v, Some(27_300_000));
    assert_eq!(r.input_frequency_hz, Some(50_000_000));
    assert_eq!(r.input_voltage_v, Some(232_100_000));
    assert_eq!(r.output_voltage_v, Some(230_000_000));
    assert_eq!(r.load_pct, Some(12_500_000));
    assert_eq!(r.status.as_deref(), Some("OL CHRG"));
    assert_eq!(r.last_seen, 1_700_000_000);
}

#[test]
fn an_empty_report_says_nothing() {
    let r = read_ups("", -1);
    assert_eq!(r.input_voltage_v, None);
    assert_eq!(r.status, None);
    assert_eq!(r.last_seen, -1);
    assert_eq!(UpsReading::default().last_seen, 0);
}

#[test]
fn lines_end_in_either_way() {
    let r = read_ups("input.voltage: 1\r\noutput.voltage: 2\n\nups.load: 3\r", 0);
    assert_eq!(r.input_voltage_v, Some(1_000_000));
    assert_eq!(r.output_voltage_v, Some(2_000_000));
    assert_eq!(r.load_pct, None);
    assert_eq!(read_ups("ups.status: OL\r", 0).status.as_deref(), Some("OL"));
}

#[test]
fn lines_without_a_separator_are_passed_over() {
    let r = read_ups("input.voltage:1\ninput.voltage :2\n input.voltage: 3\ninput.voltage: ", 0);
    assert_eq!(r.input_voltage_v, None);
    let r = read_ups("ups.status: a: b", 0);
    assert_eq!(r.status.as_deref(), Some("a: b"));
}

#[test]
fn a_variable_named_again_counts_anew() {
    assert_eq!(read_ups("input.voltage: 1\ninput.voltage: 2", 0).input_voltage_v, Some(2_000_000));
    assert_eq!(read_ups("input.voltage: 1\ninput.voltage: n/a", 0).input_voltage_v, None);
}

#[test]
fn runtimes_are_whole_and_fit() {
    assert_eq!(read_ups("battery.runtime: 4294967295", 0).runtime_s, Some(u32::MAX));
    assert_eq!(read_ups("battery.runtime: 4294967296", 0).runtime_s, None);
    assert_eq!(read_ups("battery.runtime: 12.5", 0).runtime_s, None);
    assert_eq!(read_ups("battery.runtime: -1", 0).runtime_s, None);
    assert_eq!(read_ups("battery.runtime: +7", 0).runtime_s, Some(7));
}

#[test]
fn trimming_agrees_with_std() {
    for text in ["", " ", "a", " a ", "\t\u{a0}é b\u{2003}\r\n", "\u{3000}x\u{85}", "\u{200b}x\u{180e}"] {
        assert_eq!(trim(text), text.trim());
    }
    for code in 0..0x3100u32 {
        if let Some(c) = char::from_u32(code) {
            let text = c.to_string();
            assert_eq!(trim(&text), text.trim(), "{code:x}");
        }
    }
}

#[test]
fn polls_tell_of_changes() {
    let mut inner = AppState::new(RelayController::new()).inner;
    let mut poll = UpsPoll::new();
    assert_eq!(poll.record(&mut inner, Some(read_ups("ups.load: 1", 5))), PollNote::Quiet);
    assert_eq!(inner.ups.as_ref().unwrap().load_pct, Some(1_000_000));
    assert_eq!(poll.record(&mut inner, None), PollNote::Lost);
    assert!(inner.ups.is_none());
    assert_eq!(poll.record(&mut inner, None), PollNote::StillLost(1));
    assert_eq!(poll.record(&mut inner, None), PollNote::StillLost(2));
    assert_eq!(poll.record(&mut inner, Some(UpsReading::default())), PollNote::Restored(3));
    assert_eq!(poll.consecutive_errors, 0);
    poll.consecutive_errors = u32::MAX;
    assert_eq!(poll.record(&mut inner, None), PollNote::StillLost(u32::MAX));
    assert_eq!(poll.consecutive_errors, u32::MAX);
}
