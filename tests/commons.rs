use chrono::{DateTime, Utc};
use persistent_state::{
    args_get_number, args_get_str, blockchain_from_code, blockchain_to_code, if_not_empty,
    if_time, Blockchain, HostValue, StateManagerError, UtcInstant,
};

const CODES: [(&str, u32); 5] =
    [("BTC", 1), ("ETH", 100), ("ETC", 101), ("TESTBTC", 10003), ("GOERLI", 10005)];

fn invalid(msg: &str) -> StateManagerError {
    StateManagerError::InvalidValue(msg.to_string())
}

#[test]
fn known_codes_map_to_documented_ids() {
    for (code, id) in CODES {
        assert_eq!(blockchain_from_code(code), Ok(id));
        assert_eq!(blockchain_to_code(id), Ok(code.to_string()));
    }
}

#[test]
fn lookup_ignores_ascii_case() {
    assert_eq!(blockchain_from_code("btc"), Ok(1));
    assert_eq!(blockchain_from_code("eth"), Ok(100));
    assert_eq!(blockchain_from_code("Etc"), Ok(101));
    assert_eq!(blockchain_from_code("testBtc"), Ok(10003));
    assert_eq!(blockchain_from_code("gOeRlI"), Ok(10005));
    assert_eq!(blockchain_to_code(blockchain_from_code("goerli").unwrap()), Ok("GOERLI".to_string()));
}

#[test]
fn unknown_codes_are_rejected() {
    for code in ["DOGE", "", "btc ", " BTC", "BTCX", "ETHEREUM", "TEST BTC"] {
        assert_eq!(blockchain_from_code(code), Err(invalid("Invalid blockchain code")));
    }
}

#[test]
fn unknown_ids_are_rejected() {
    for id in [0u32, 2, 99, 102, 10004, 99999, u32::MAX] {
        assert_eq!(blockchain_to_code(id), Err(invalid("Invalid blockchain id")));
    }
}

#[test]
fn ids_and_codes_round_trip() {
    for (code, id) in CODES {
        let back = blockchain_to_code(id).unwrap();
        assert_eq!(blockchain_from_code(&back), Ok(id));
        let lower = code.to_lowercase();
        let id2 = blockchain_from_code(&lower).unwrap();
        assert_eq!(blockchain_to_code(id2), Ok(lower.to_uppercase()));
    }
}

#[test]
fn blockchain_enum_conversions() {
    let all = [
        Blockchain::Btc,
        Blockchain::Eth,
        Blockchain::Etc,
        Blockchain::TestBtc,
        Blockchain::Goerli,
    ];
    for (chain, (code, id)) in all.iter().zip(CODES) {
        assert_eq!(chain.id(), id);
        assert_eq!(chain.code(), code);
        assert_eq!(Blockchain::from_id(id), Some(*chain));
        assert_eq!(Blockchain::from_code(code), Some(*chain));
        assert_eq!(Blockchain::from_code(&code.to_lowercase()), Some(*chain));
    }
    assert_eq!(Blockchain::from_id(3), None);
    assert_eq!(Blockchain::from_code("LTC"), None);
}

#[test]
fn empty_string_is_absent() {
    assert_eq!(if_not_empty(String::new()), None);
    assert_eq!(if_not_empty("x".to_string()), Some("x".to_string()));
    assert_eq!(if_not_empty(" ".to_string()), Some(" ".to_string()));
}

#[test]
fn zero_timestamp_is_absent() {
    assert_eq!(if_time(0), None);
    let t = if_time(1700000000000).unwrap();
    assert_eq!(t, UtcInstant::from_millis(1700000000000));
    assert_eq!(t.millis(), 1700000000000);
    let dt: DateTime<Utc> = DateTime::from_timestamp_millis(t.millis() as i64).unwrap();
    assert_eq!(dt.to_rfc3339(), "2023-11-14T22:13:20+00:00");
    assert_eq!(if_time(1), Some(UtcInstant::from_millis(1)));
}

fn sample_args() -> Vec<HostValue> {
    vec![
        HostValue::Str("hello".to_string()),
        HostValue::Number(42.5f64.to_bits()),
        HostValue::Other,
        HostValue::Str(String::new()),
    ]
}

#[test]
fn string_argument_extraction() {
    let args = sample_args();
    assert_eq!(args_get_str(&args, 0), Some("hello".to_string()));
    assert_eq!(args_get_str(&args, 3), Some(String::new()));
    assert_eq!(args_get_str(&args, 1), None);
    assert_eq!(args_get_str(&args, 2), None);
    assert_eq!(args_get_str(&args, 4), None);
    assert_eq!(args_get_str(&args, 100), None);
    assert_eq!(args_get_str(&args, -1), None);
    assert_eq!(args_get_str(&[], 0), None);
}

#[test]
fn number_argument_extraction() {
    let args = sample_args();
    assert_eq!(args_get_number(&args, 1).map(f64::from_bits), Some(42.5));
    assert_eq!(args_get_number(&args, 0), None);
    assert_eq!(args_get_number(&args, 2), None);
    assert_eq!(args_get_number(&args, 3), None);
    assert_eq!(args_get_number(&args, 4), None);
    assert_eq!(args_get_number(&args, -3), None);
    assert_eq!(args_get_number(&[], 0), None);
}
