use kraken_client::errors::KrakenError;
use kraken_client::ops::{
    decode_ask, decode_balance, decode_bid, decode_cancel_order, decode_order_response,
    decode_orderbook,
};

const EXCHANGE_ERROR_BODY: &str = r#"{"error":["EGeneral:Invalid arguments"],"result":null}"#;

fn expect_exchange_error(e: KrakenError) {
    match e {
        KrakenError::ExchangeError(msgs) => {
            assert_eq!(msgs, vec!["EGeneral:Invalid arguments".to_string()]);
        }
        other => panic!("expected ExchangeError, got {:?}", other),
    }
}

#[test]
fn every_operation_surfaces_exchange_errors_verbatim() {
    expect_exchange_error(decode_cancel_order(EXCHANGE_ERROR_BODY).unwrap_err());
    expect_exchange_error(decode_order_response(EXCHANGE_ERROR_BODY).unwrap_err());
    expect_exchange_error(decode_balance(EXCHANGE_ERROR_BODY).unwrap_err());
    expect_exchange_error(decode_bid(EXCHANGE_ERROR_BODY).unwrap_err());
    expect_exchange_error(decode_ask(EXCHANGE_ERROR_BODY).unwrap_err());
    expect_exchange_error(decode_orderbook(EXCHANGE_ERROR_BODY).unwrap_err());
}

#[test]
fn multiple_exchange_errors_are_kept_in_order() {
    let body = r#"{"error":["EOrder:Insufficient funds","EGeneral:Temporary lockout"],"result":null}"#;
    match decode_cancel_order(body).unwrap_err() {
        KrakenError::ExchangeError(msgs) => assert_eq!(
            msgs,
            vec![
                "EOrder:Insufficient funds".to_string(),
                "EGeneral:Temporary lockout".to_string()
            ]
        ),
        other => panic!("expected ExchangeError, got {:?}", other),
    }
}

#[test]
fn balance_drops_malformed_entries() {
    let body = r#"{"error":[],"result":{"XBT":"0.5","USD":"not-a-number","ETH":"1.25"}}"#;
    let entries = decode_balance(body).unwrap();
    assert_eq!(entries.len(), 2);
    let mut map: Vec<(String, f64)> = entries
        .iter()
        .map(|(k, v)| (k.clone(), v.parse::<f64>().unwrap()))
        .collect();
    map.sort_by(|a, b| a.0.cmp(&b.0));
    assert_eq!(map[0].0, "ETH");
    assert!((map[0].1 - 1.25).abs() < 1e-12);
    assert_eq!(map[1].0, "XBT");
    assert!((map[1].1 - 0.5).abs() < 1e-12);
}

#[test]
fn balance_drops_non_string_values() {
    let body = r#"{"error":[],"result":{"XBT":"0.5","DOT":7,"ADA":null}}"#;
    let entries = decode_balance(body).unwrap();
    assert_eq!(entries, vec![("XBT".to_string(), "0.5".to_string())]);
}

#[test]
fn balance_requires_result_object() {
    let body = r#"{"error":[],"result":"oops"}"#;
    assert!(matches!(
        decode_balance(body),
        Err(KrakenError::ParseError(_))
    ));
    let body2 = r#"{"error":[]}"#;
    match decode_balance(body2).unwrap_err() {
        KrakenError::MissingField(f) => assert_eq!(f, "result"),
        other => panic!("expected MissingField, got {:?}", other),
    }
}

#[test]
fn ticker_quotes_and_spread() {
    let body = r#"{"error":[],"result":{"XXBTZUSD":{"b":["30000.1","1","1.0"],"a":["30000.5","2","2.0"]}}}"#;
    let bid = decode_bid(body).unwrap();
    let ask = decode_ask(body).unwrap();
    assert_eq!(bid, "30000.1");
    assert_eq!(ask, "30000.5");
    let spread = ask.parse::<f64>().unwrap() - bid.parse::<f64>().unwrap();
    assert!((spread - 0.4).abs() < 1e-9);
}

#[test]
fn ticker_missing_pieces_are_parse_errors() {
    let empty_result = r#"{"error":[],"result":{}}"#;
    assert!(matches!(
        decode_bid(empty_result),
        Err(KrakenError::ParseError(_))
    ));
    let no_bid = r#"{"error":[],"result":{"XXBTZUSD":{"a":["30000.5","2","2.0"]}}}"#;
    assert!(matches!(decode_bid(no_bid), Err(KrakenError::ParseError(_))));
    let numeric_bid = r#"{"error":[],"result":{"XXBTZUSD":{"b":[30000.1],"a":["1"]}}}"#;
    assert!(matches!(
        decode_bid(numeric_bid),
        Err(KrakenError::ParseError(_))
    ));
}

#[test]
fn cancel_count_zero_is_false_and_positive_is_true() {
    let zero = r#"{"error":[],"result":{"count":0}}"#;
    assert_eq!(decode_cancel_order(zero).unwrap(), false);
    let one = r#"{"error":[],"result":{"count":1}}"#;
    assert_eq!(decode_cancel_order(one).unwrap(), true);
    let many = r#"{"error":[],"result":{"count":3}}"#;
    assert_eq!(decode_cancel_order(many).unwrap(), true);
}

#[test]
fn cancel_missing_count_is_missing_field() {
    let body = r#"{"error":[],"result":{}}"#;
    match decode_cancel_order(body).unwrap_err() {
        KrakenError::MissingField(f) => assert_eq!(f, "count"),
        other => panic!("expected MissingField, got {:?}", other),
    }
    let not_uint = r#"{"error":[],"result":{"count":"1"}}"#;
    assert!(matches!(
        decode_cancel_order(not_uint),
        Err(KrakenError::ParseError(_))
    ));
}

#[test]
fn order_response_decodes_txids_and_description() {
    let body = r#"{"error":[],"result":{"txid":["OABC12-XYZ","ODEF34-UVW"],"descr":{"order":"buy 1.25 XBTUSD @ limit 30000.1"}}}"#;
    let or = decode_order_response(body).unwrap();
    assert_eq!(
        or.txid,
        vec!["OABC12-XYZ".to_string(), "ODEF34-UVW".to_string()]
    );
    assert_eq!(or.description, "buy 1.25 XBTUSD @ limit 30000.1");
}

#[test]
fn order_response_defaults_missing_description() {
    let body = r#"{"error":[],"result":{"txid":["OABC12-XYZ"]}}"#;
    let or = decode_order_response(body).unwrap();
    assert_eq!(or.txid, vec!["OABC12-XYZ".to_string()]);
    assert_eq!(or.description, "No description available");
}

#[test]
fn order_response_drops_non_string_txid_entries() {
    let body = r#"{"error":[],"result":{"txid":["OABC12-XYZ",7,null],"descr":{"order":"x"}}}"#;
    let or = decode_order_response(body).unwrap();
    assert_eq!(or.txid, vec!["OABC12-XYZ".to_string()]);
}

#[test]
fn order_response_missing_txid_is_missing_field() {
    let body = r#"{"error":[],"result":{"descr":{"order":"x"}}}"#;
    match decode_order_response(body).unwrap_err() {
        KrakenError::MissingField(f) => assert_eq!(f, "txid"),
        other => panic!("expected MissingField, got {:?}", other),
    }
    let not_array = r#"{"error":[],"result":{"txid":"OABC12-XYZ"}}"#;
    assert!(matches!(
        decode_order_response(not_array),
        Err(KrakenError::ParseError(_))
    ));
}

#[test]
fn orderbook_keeps_numeral_strings_only()
{
    let body = r#"{"error":[],"result":{"XXBTZUSD":{"b":["30000.1","1","bad"],"a":["30000.5",2,"2.0"]}}}"#;
    let (bids, asks) = decode_orderbook(body).unwrap();
    assert_eq!(bids, vec!["30000.1".to_string(), "1".to_string()]);
    assert_eq!(asks, vec!["30000.5".to_string(), "2.0".to_string()]);
}

#[test]
fn empty_balance_object_is_an_empty_map() {
    let body = r#"{"error":[],"result":{}}"#;
    assert_eq!(decode_balance(body).unwrap(), vec![]);
}

#[test]
fn absent_or_non_array_error_field_is_not_an_error() {
    let no_error_key = r#"{"result":{"count":1}}"#;
    assert_eq!(decode_cancel_order(no_error_key).unwrap(), true);
    let error_not_array = r#"{"error":"odd","result":{"count":0}}"#;
    assert_eq!(decode_cancel_order(error_not_array).unwrap(), false);
}

#[test]
fn non_string_error_elements_are_dropped_from_the_report() {
    let body = r#"{"error":[42,"EGeneral:Internal error"],"result":null}"#;
    match decode_cancel_order(body).unwrap_err() {
        KrakenError::ExchangeError(msgs) => {
            assert_eq!(msgs, vec!["EGeneral:Internal error".to_string()]);
        }
        other => panic!("expected ExchangeError, got {:?}", other),
    }
}

#[test]
fn invalid_json_is_a_parse_error() {
    assert!(matches!(
        decode_cancel_order("this is not json"),
        Err(KrakenError::ParseError(_))
    ));
    assert!(matches!(
        decode_balance(""),
        Err(KrakenError::ParseError(_))
    ));
}

#[test]
fn non_object_envelope_misses_result() {
    let body = r#"[1,2,3]"#;
    match decode_cancel_order(body).unwrap_err() {
        KrakenError::MissingField(f) => assert_eq!(f, "result"),
        other => panic!("expected MissingField, got {:?}", other),
    }
}
