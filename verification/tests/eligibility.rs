use asi_faucet::eligibility::{
    base_units, check_eligibility, decide_eligibility, parse_balance, GateError,
    BASE_UNITS_PER_WHOLE,
};

const LIMIT: u128 = 2_000_000_000_000;

#[test]
fn balance_below_limit_is_eligible() {
    let decision = check_eligibility(Ok("20000000000".to_string()), LIMIT).unwrap();
    assert!(decision.eligible);
    assert_eq!(decision.reason, None);
}

#[test]
fn balance_at_limit_is_ineligible_with_reason() {
    let decision = check_eligibility(Ok("2000000000000".to_string()), LIMIT).unwrap();
    assert!(!decision.eligible);
    let reason = decision.reason.unwrap();
    assert_eq!(reason, "Address balance exceeds faucet eligibility threshold");
    assert!(reason.contains("threshold"));
}

#[test]
fn balance_one_below_limit_is_eligible() {
    let decision = decide_eligibility("1999999999999", LIMIT).unwrap();
    assert!(decision.eligible);
}

#[test]
fn balance_above_limit_is_ineligible() {
    let decision = decide_eligibility("2000000000001", LIMIT).unwrap();
    assert!(!decision.eligible);
}

#[test]
fn zero_limit_refuses_every_balance() {
    assert!(!decide_eligibility("0", 0).unwrap().eligible);
}

#[test]
fn non_numeric_balance_is_unparsable() {
    for text in ["abc", "", "12a", "-5", "+", " 12", "1.5", "１２"] {
        let r = check_eligibility(Ok(text.to_string()), LIMIT);
        assert!(matches!(r, Err(GateError::UnparsableBalance)), "{:?}", text);
    }
}

#[test]
fn failed_read_keeps_the_message() {
    let r = check_eligibility(Err("connection refused".to_string()), LIMIT);
    match r {
        Err(GateError::ReadFailed(message)) => assert_eq!(message, "connection refused"),
        other => panic!("unexpected {:?}", other),
    }
}

#[test]
fn parse_balance_agrees_with_std() {
    for text in [
        "0",
        "7",
        "+7",
        "007",
        "340282366920938463463374607431768211455",
        "340282366920938463463374607431768211456",
        "3402823669209384634633746074317682114550",
        "++1",
        "+-1",
        "1+",
        "",
        "+",
        "-",
        "x",
    ] {
        assert_eq!(parse_balance(text), text.parse::<u128>().ok(), "{:?}", text);
    }
}

#[test]
fn parse_balance_exact_values() {
    assert_eq!(parse_balance("20000000000"), Some(20_000_000_000));
    assert_eq!(parse_balance("+42"), Some(42));
    assert_eq!(parse_balance("340282366920938463463374607431768211455"), Some(u128::MAX));
    assert_eq!(parse_balance("340282366920938463463374607431768211456"), None);
}

#[test]
fn base_units_scale_by_ten_to_the_eighth() {
    assert_eq!(BASE_UNITS_PER_WHOLE, 100_000_000);
    assert_eq!(base_units(20000), LIMIT);
    assert_eq!(base_units(0), 0);
    assert_eq!(base_units(u64::MAX), 1_844_674_407_370_955_161_500_000_000);
}
