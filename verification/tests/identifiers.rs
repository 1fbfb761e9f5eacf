use aetheris::anomaly::{format_anomaly_id, generate_anomaly_id};
use aetheris::text::{last_decimal_digit, push_upper_hex, push_upper_hex4, same_text, starts_with};
use aetheris::{current_timestamp_ms, Counter};

#[test]
fn counter_hands_out_consecutive_numbers() {
    let mut counter = Counter::new();
    assert_eq!(counter.next, 0);
    for expected in 0..100u64 {
        assert_eq!(counter.take(), expected);
    }
    assert_eq!(counter.next, 100);
}

#[test]
fn counter_starts_over_after_the_largest_number() {
    let mut counter = Counter { next: u64::MAX - 1 };
    assert_eq!(counter.take(), u64::MAX - 1);
    assert_eq!(counter.take(), u64::MAX);
    assert_eq!(counter.take(), 0);
    assert_eq!(counter.take(), 1);
}

#[test]
fn upper_hex_agrees_with_std_formatting() {
    let samples = [
        0u64,
        1,
        9,
        10,
        15,
        16,
        255,
        256,
        4095,
        4096,
        0xABCDEF,
        0x1234_5678_9ABC_DEF0,
        u64::MAX,
        1_700_000_000_000,
    ];
    for n in samples {
        let mut out = String::from(">");
        push_upper_hex(&mut out, n);
        assert_eq!(out, format!(">{:X}", n));
        let mut out = String::from(">");
        push_upper_hex4(&mut out, n);
        assert_eq!(out, format!(">{:04X}", n));
    }
}

#[test]
fn padded_hex_has_at_least_four_digits() {
    let mut out = String::new();
    push_upper_hex4(&mut out, 0);
    assert_eq!(out, "0000");
    let mut out = String::new();
    push_upper_hex4(&mut out, 0xAB);
    assert_eq!(out, "00AB");
    let mut out = String::new();
    push_upper_hex4(&mut out, 0xFFFF);
    assert_eq!(out, "FFFF");
    let mut out = String::new();
    push_upper_hex4(&mut out, 0x10000);
    assert_eq!(out, "10000");
}

#[test]
fn last_decimal_digits() {
    for n in 0..=255u8 {
        assert_eq!(last_decimal_digit(n), format!("{}", n % 10));
    }
}

#[test]
fn anomaly_id_format() {
    assert_eq!(format_anomaly_id(0, 0), "ANM-0-0000");
    assert_eq!(format_anomaly_id(0x18C2_5D3E_F00, 26), "ANM-18C25D3EF00-001A");
    assert_eq!(format_anomaly_id(255, 0xFFFF), "ANM-FF-FFFF");
    assert_eq!(format_anomaly_id(1, 0x12345), "ANM-1-12345");
    assert_eq!(
        format_anomaly_id(u64::MAX, u64::MAX),
        "ANM-FFFFFFFFFFFFFFFF-FFFFFFFFFFFFFFFF"
    );
    for (ts, count) in [(1_700_000_000_000u64, 0u64), (42, 4095), (7, 65536)] {
        assert_eq!(format_anomaly_id(ts, count), format!("ANM-{:X}-{:04X}", ts, count));
    }
}

#[test]
fn generated_anomaly_ids_are_unique_by_counter() {
    let mut ids = Counter::new();
    let before = current_timestamp_ms();
    let first = generate_anomaly_id(&mut ids);
    let second = generate_anomaly_id(&mut ids);
    let after = current_timestamp_ms();
    assert_ne!(first, second);
    assert_eq!(ids.next, 2);
    let parts: Vec<&str> = first.split('-').collect();
    assert_eq!(parts.len(), 3);
    assert_eq!(parts[0], "ANM");
    let stamp = u64::from_str_radix(parts[1], 16).unwrap();
    assert!(before <= stamp && stamp <= after);
    assert_eq!(parts[2], "0000");
    assert!(second.ends_with("-0001"));
}

#[test]
fn prefix_test_agrees_with_std() {
    let texts = ["", "a", "ab", "abc", "aetheris/telemetry/RV-001", "ü", "üb", "日本語"];
    for text in texts {
        for prefix in texts {
            assert_eq!(starts_with(text, prefix), text.starts_with(prefix), "{text} {prefix}");
            assert_eq!(same_text(text, prefix), text == prefix, "{text} {prefix}");
        }
    }
}

#[test]
fn identifiers_differ_where_counters_or_times_differ() {
    let stamps = [0u64, 1, 15, 16, 0xABC, 0xABCD, u64::MAX];
    let counts = [0u64, 1, 0xFFF, 0xFFFF, 0x10000, 0xABCD, u64::MAX];
    let mut seen = std::collections::HashSet::new();
    for ts in stamps {
        for count in counts {
            assert!(seen.insert(format_anomaly_id(ts, count)), "{ts} {count}");
        }
    }
    assert_eq!(seen.len(), stamps.len() * counts.len());
}
