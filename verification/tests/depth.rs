use kraken_client::market::decode_depth;

#[test]
fn depth_decodes_levels_and_drops_malformed_entries() {
    let body = r#"{"error":[],"result":{"XXBTZUSD":{
        "bids":[["30000.1","0.5",1700000000],["29999.9","2",1700000001],["bad","1",0],[1,2,3]],
        "asks":[["30000.5","1.5",1700000000]]
    }}}"#;
    let (bids, asks) = decode_depth(body).unwrap();
    assert_eq!(
        bids,
        vec![
            ("30000.1".to_string(), "0.5".to_string()),
            ("29999.9".to_string(), "2".to_string())
        ]
    );
    assert_eq!(asks, vec![("30000.5".to_string(), "1.5".to_string())]);
    let products: Vec<f64> = bids
        .iter()
        .map(|(p, v)| p.parse::<f64>().unwrap() * v.parse::<f64>().unwrap())
        .collect();
    assert!((products[0] - 15000.05).abs() < 1e-9);
}

#[test]
fn depth_reports_missing_result() {
    let body = r#"{"error":[]}"#;
    let e = decode_depth(body).unwrap_err();
    assert_eq!(e.message, "Missing result field");
    let body2 = r#"{"result":"nope"}"#;
    assert_eq!(decode_depth(body2).unwrap_err().message, "Missing result field");
}

#[test]
fn depth_reports_missing_pair_data() {
    let body = r#"{"result":{}}"#;
    assert_eq!(decode_depth(body).unwrap_err().message, "Missing pair data");
}

#[test]
fn depth_reports_missing_sides() {
    let no_bids = r#"{"result":{"XXBTZUSD":{"asks":[]}}}"#;
    assert_eq!(decode_depth(no_bids).unwrap_err().message, "Missing bids");
    let no_asks = r#"{"result":{"XXBTZUSD":{"bids":[]}}}"#;
    assert_eq!(decode_depth(no_asks).unwrap_err().message, "Missing asks");
}

#[test]
fn depth_refuses_invalid_json() {
    assert!(decode_depth("{{").is_err());
}
