use backgroundassets::async_api::{exclusive_control_granted, parse_bool_response, parse_status_response};

#[test]
fn parse_bool_response_accepts_expected_values() {
    assert!(parse_bool_response("true".into()).unwrap());
    assert!(parse_bool_response("1".into()).unwrap());
    assert!(!parse_bool_response("false".into()).unwrap());
    assert!(!parse_bool_response("0".into()).unwrap());
}

#[test]
fn parse_status_response_rejects_invalid_payloads() {
    let error = parse_status_response("not-a-number".into(), "asset-pack status").unwrap_err();
    assert!(error
        .message_text()
        .contains("invalid asset-pack status payload"));
}

#[test]
fn parse_bool_response_reads_every_spelling() {
    for yes in ["1", "true", "TRUE", "yes", "ok"] {
        assert_eq!(parse_bool_response(yes.into()).unwrap(), true);
    }
    for no in ["0", "false", "FALSE", "no"] {
        assert_eq!(parse_bool_response(no.into()).unwrap(), false);
    }
}

#[test]
fn parse_bool_response_quotes_unknown_text() {
    let error = parse_bool_response("True".into()).unwrap_err();
    assert_eq!(error.message_text(), "invalid exclusive-control payload: True");
    assert_eq!(error.domain(), "BackgroundAssetsBridge");
    assert_eq!(error.code(), -1);
    assert!(parse_bool_response(String::new()).is_err());
}

#[test]
fn parse_status_response_reads_decimal_bits() {
    assert_eq!(parse_status_response("0".into(), "local-status").unwrap().bits(), 0);
    assert_eq!(parse_status_response("68".into(), "local-status").unwrap().bits(), 68);
    assert_eq!(parse_status_response("+5".into(), "local-status").unwrap().bits(), 5);
    assert_eq!(
        parse_status_response("18446744073709551615".into(), "local-status").unwrap().bits(),
        u64::MAX
    );
}

#[test]
fn parse_status_response_refuses_what_is_not_a_u64() {
    for bad in ["", "+", "-1", " 4", "4 ", "18446744073709551616", "0x10"] {
        let error = parse_status_response(bad.into(), "local-status").unwrap_err();
        assert!(
            error.message_text().starts_with("invalid local-status payload: "),
            "{}",
            error.message_text()
        );
    }
}

#[test]
fn exclusive_control_is_granted_only_by_a_yes() {
    for yes in ["1", "true", "TRUE", "yes", "ok"] {
        assert!(exclusive_control_granted(yes));
    }
    for other in ["0", "false", "no", "maybe", ""] {
        assert!(!exclusive_control_granted(other));
    }
}

#[test]
fn parse_status_response_quotes_the_parser_reason() {
    for bad in ["not-a-number", "", "18446744073709551616"] {
        let error = parse_status_response(bad.into(), "local-status").unwrap_err();
        let reason = bad.parse::<u64>().unwrap_err().to_string();
        assert_eq!(error.message_text(), format!("invalid local-status payload: {reason}"));
        assert_eq!(error.domain(), "BackgroundAssetsBridge");
        assert_eq!(error.code(), -1);
    }
}
