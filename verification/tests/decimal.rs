use solar_relay::decimal::{parse_count, parse_decimal, push_decimal};
use solar_relay::text::{characters, push_number, same_text};

fn shown(value: i64, places: u8) -> String {
    let mut out = String::from("=");
    push_decimal(&mut out, value, places);
    out
}

#[test]
fn decimals_are_written_like_floats() {
    // Every multiple of 1/8 is held exactly by a float.
    for eighths in -2_000i64..=2_000 {
        let float = eighths as f64 / 8.0;
        let micro = eighths * 125_000;
        if micro != 0 {
            assert_eq!(shown(micro, 0), format!("={float:.0}"));
            assert_eq!(shown(micro, 1), format!("={float:.1}"));
            assert_eq!(shown(micro, 2), format!("={float:.2}"));
            assert_eq!(shown(micro, 6), format!("={float:.6}"));
        }
    }
}

#[test]
fn decimals_round_half_to_even() {
    assert_eq!(shown(24_805_000, 2), "=24.80");
    assert_eq!(shown(24_815_000, 2), "=24.82");
    assert_eq!(shown(24_805_001, 2), "=24.81");
    assert_eq!(shown(9_999_999, 2), "=10.00");
    assert_eq!(shown(0, 0), "=0");
    assert_eq!(shown(-1, 2), "=-0.00");
    assert_eq!(shown(i64::MIN, 6), "=-9223372036854.775808");
    assert_eq!(shown(i64::MAX, 0), "=9223372036855");
}

#[test]
fn decimals_are_read() {
    for (text, value) in [
        ("0", 0),
        ("-0", 0),
        ("+1.5", 1_500_000),
        ("230.", 230_000_000),
        (".5", 500_000),
        ("-.000001", -1),
        ("1e3", 1_000_000_000),
        ("12.5E-2", 125_000),
        ("1e+2", 100_000_000),
        ("0.0000019", 1),
        ("9223372036854.775807", i64::MAX),
        ("0e99999999999999999999999999999999", 0),
        ("123e-99999999999999999999999999999999", 0),
        ("00012", 12_000_000),
    ] {
        assert_eq!(parse_decimal(text), Some(value), "{text}");
        assert!(text.parse::<f32>().is_ok());
    }
}

#[test]
fn what_is_no_decimal_is_refused() {
    for text in ["", ".", "+", "-", "e5", ".e5", "1e", "1e+", "1.2.3", " 1", "1 ", "1,5", "0x10", "1_0", "--1", "é"] {
        assert_eq!(parse_decimal(text), None, "{text}");
        assert!(text.parse::<f32>().is_err());
    }
    assert_eq!(parse_decimal("9223372036854.775808"), None);
    assert_eq!(parse_decimal("1e99999999999999999999999999999999"), None);
}

#[test]
fn counts_are_read_like_std() {
    for text in ["0", "7", "+7", "007", "4294967295", "4294967296", "", "+", "-1", "-0", "1.0", " 1", "1e3", "99999999999999999999999999"] {
        assert_eq!(parse_count(text), text.parse::<u32>().ok(), "{text}");
    }
}

#[test]
fn text_helpers() {
    let mut out = String::new();
    push_number(&mut out, 0);
    push_number(&mut out, 10);
    push_number(&mut out, u64::MAX);
    assert_eq!(out, format!("010{}", u64::MAX));
    assert!(same_text("é", "é") && !same_text("a", "ab") && !same_text("a", "b"));
    assert_eq!(characters("aé—"), vec!['a', 'é', '—']);
}
