use battlesnake_server::budget::{
    latency_ms, parse_millis, turn_budget_ms, DEFAULT_LATENCY_MS, MIN_BUDGET_MS, SAFETY_MARGIN_MS,
};

#[test]
fn budget_is_timeout_less_latency_less_margin() {
    assert_eq!(turn_budget_ms(500, latency_ms("100")), 350);
    assert_eq!(turn_budget_ms(500, 100), 350);
    assert_eq!(turn_budget_ms(1000, 0), 950);
}

#[test]
fn unreadable_latency_is_taken_as_the_default() {
    assert_eq!(latency_ms("garbage"), 150);
    assert_eq!(turn_budget_ms(500, latency_ms("garbage")), 300);
    assert_eq!(latency_ms(""), 150);
    assert_eq!(turn_budget_ms(500, latency_ms("")), 300);
}

#[test]
fn the_constants_are_as_documented() {
    assert_eq!(DEFAULT_LATENCY_MS, 150);
    assert_eq!(SAFETY_MARGIN_MS, 50);
    assert_eq!(MIN_BUDGET_MS, 100);
}

#[test]
fn budget_never_falls_below_the_floor() {
    assert_eq!(turn_budget_ms(0, 0), 100);
    assert_eq!(turn_budget_ms(100, 150), 100);
    assert_eq!(turn_budget_ms(199, 150), 100);
    assert_eq!(turn_budget_ms(200, 150), 100);
    assert_eq!(turn_budget_ms(200, 100), 100);
    assert_eq!(turn_budget_ms(249, 100), 100);
    assert_eq!(turn_budget_ms(250, 100), 100);
    assert_eq!(turn_budget_ms(251, 100), 101);
    assert_eq!(turn_budget_ms(0, u64::MAX), 100);
    assert_eq!(turn_budget_ms(u64::MAX, u64::MAX), 100);
    assert_eq!(turn_budget_ms(u64::MAX, 0), u64::MAX - 50);
    for timeout in 0..400u64 {
        for latency in [0u64, 1, 49, 50, 99, 100, 150, 399, 400] {
            assert!(turn_budget_ms(timeout, latency) >= MIN_BUDGET_MS);
        }
    }
}

#[test]
fn numbers_are_read_as_decimal_digits() {
    assert_eq!(parse_millis("0"), Some(0));
    assert_eq!(parse_millis("7"), Some(7));
    assert_eq!(parse_millis("100"), Some(100));
    assert_eq!(parse_millis("007"), Some(7));
    assert_eq!(parse_millis("+42"), Some(42));
    assert_eq!(parse_millis("18446744073709551615"), Some(u64::MAX));
    assert_eq!(parse_millis("000000000000000000000000000000001"), Some(1));
}

#[test]
fn anything_else_is_not_a_number() {
    for text in [
        "",
        "+",
        "-",
        "-5",
        "-0",
        "++5",
        "+-5",
        "5+",
        " 5",
        "5 ",
        "5.0",
        "1_000",
        "0x10",
        "1e3",
        "garbage",
        "12a",
        "a12",
        "\u{0663}",
        "\u{ff11}",
        "18446744073709551616",
        "99999999999999999999999999",
        "184467440737095516150",
    ] {
        assert_eq!(parse_millis(text), None);
    }
}

#[test]
fn numbers_are_read_as_the_standard_library_reads_them() {
    let mut samples: Vec<String> = Vec::new();
    for n in 0..300u64 {
        samples.push(n.to_string());
        samples.push(format!("+{}", n));
        samples.push(format!("-{}", n));
        samples.push(format!("0{}", n));
        samples.push(format!("{} ", n));
        samples.push(format!("{}x", n));
    }
    for n in [u64::MAX, u64::MAX - 1, u64::MAX / 10, u64::MAX / 10 + 1, 1 << 63, 1 << 32] {
        samples.push(n.to_string());
        samples.push(format!("{}0", n));
        samples.push(format!("{}9", n));
        samples.push(format!("1{}", n));
    }
    for text in samples {
        assert_eq!(parse_millis(&text), text.parse::<u64>().ok());
        assert_eq!(latency_ms(&text), text.parse::<u64>().unwrap_or(150));
    }
}
