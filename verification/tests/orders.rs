use kraken_client::client::KrakenClient;
use kraken_client::errors::KrakenError;
use kraken_client::signing::sign;

const SECRET_B64: &str = "c3VwZXIgc2VjcmV0IGtleQ==";

fn fresh_client() -> KrakenClient {
    KrakenClient::new(
        "api-key-1".to_string(),
        SECRET_B64.to_string(),
        "XBTUSD".to_string(),
    )
}

#[test]
fn add_order_rejects_invalid_side_before_any_work() {
    let mut client = fresh_client();
    let r = client.prepare_add_order("XBTUSD", "FOO", "30000.1", "1.0");
    assert!(matches!(r, Err(KrakenError::ValidationError(_))));
    assert_eq!(client.last_nonce, 0, "no nonce may be drawn for a rejected side");
}

#[test]
fn edit_order_rejects_invalid_side_before_any_work() {
    let mut client = fresh_client();
    let r = client.prepare_edit_order("TXID-1", "XBTUSD", "FOO", "30000.1", "1.0", None);
    assert!(matches!(r, Err(KrakenError::ValidationError(_))));
    assert_eq!(client.last_nonce, 0);
}

#[test]
fn add_order_accepts_side_case_insensitively() {
    let mut client = fresh_client();
    let req = client
        .prepare_add_order("XBTUSD", "BUY", "30000.1", "1.25")
        .unwrap();
    assert!(req.body.contains("&type=buy&"));
    let req2 = client
        .prepare_add_order("XBTUSD", "SeLl", "30000.1", "1.25")
        .unwrap();
    assert!(req2.body.contains("&type=sell&"));
}

#[test]
fn add_order_builds_body_in_insertion_order() {
    let mut client = fresh_client();
    let req = client
        .prepare_add_order("XBTUSD", "buy", "30000.1", "1.25")
        .unwrap();
    let nonce = client.last_nonce;
    assert_eq!(req.path, "/0/private/AddOrder");
    assert_eq!(req.api_key, "api-key-1");
    assert_eq!(
        req.body,
        format!(
            "nonce={}&ordertype=limit&type=buy&volume=1.25&price=30000.1&pair=XBTUSD",
            nonce
        )
    );
}

#[test]
fn add_order_signature_matches_engine() {
    let mut client = fresh_client();
    let req = client
        .prepare_add_order("XBTUSD", "buy", "30000.1", "1.25")
        .unwrap();
    let nonce = client.last_nonce.to_string();
    let expected = sign(SECRET_B64, &req.path, &nonce, &req.body).unwrap();
    assert_eq!(req.signature, expected);
}

#[test]
fn add_order_rejects_bad_secret_after_validation() {
    let mut client = KrakenClient::new(
        "k".to_string(),
        "not valid base64 %%".to_string(),
        "XBTUSD".to_string(),
    );
    let r = client.prepare_add_order("XBTUSD", "buy", "1", "1");
    assert!(matches!(r, Err(KrakenError::ParseError(_))));
    let r2 = client.prepare_add_order("XBTUSD", "FOO", "1", "1");
    assert!(matches!(r2, Err(KrakenError::ValidationError(_))));
}

#[test]
fn edit_order_includes_txid_and_optional_userref() {
    let mut client = fresh_client();
    let req = client
        .prepare_edit_order("OABC12-XYZ", "XBTUSD", "sell", "31000", "0.5", None)
        .unwrap();
    let nonce = client.last_nonce;
    assert_eq!(req.path, "/0/private/EditOrder");
    assert_eq!(
        req.body,
        format!(
            "nonce={}&ordertype=limit&type=sell&volume=0.5&price=31000&pair=XBTUSD&txid=OABC12-XYZ",
            nonce
        )
    );

    let req2 = client
        .prepare_edit_order("OABC12-XYZ", "XBTUSD", "sell", "31000", "0.5", Some("7"))
        .unwrap();
    let nonce2 = client.last_nonce;
    assert_eq!(
        req2.body,
        format!(
            "nonce={}&ordertype=limit&type=sell&volume=0.5&price=31000&pair=XBTUSD&txid=OABC12-XYZ&userref=7",
            nonce2
        )
    );
}

#[test]
fn cancel_order_builds_body_with_txid() {
    let mut client = fresh_client();
    let req = client.prepare_cancel_order("OABC12-XYZ").unwrap();
    let nonce = client.last_nonce;
    assert_eq!(req.path, "/0/private/CancelOrder");
    assert_eq!(req.body, format!("nonce={}&txid=OABC12-XYZ", nonce));
    let expected = sign(SECRET_B64, &req.path, &nonce.to_string(), &req.body).unwrap();
    assert_eq!(req.signature, expected);
}

#[test]
fn balance_and_open_orders_bodies_carry_nonce_alone() {
    let mut client = fresh_client();
    let req = client.prepare_balance().unwrap();
    assert_eq!(req.path, "/0/private/Balance");
    assert_eq!(req.body, format!("nonce={}", client.last_nonce));

    let req2 = client.prepare_open_orders().unwrap();
    assert_eq!(req2.path, "/0/private/OpenOrders");
    assert_eq!(req2.body, format!("nonce={}", client.last_nonce));
    let expected = sign(
        SECRET_B64,
        &req2.path,
        &client.last_nonce.to_string(),
        &req2.body,
    )
    .unwrap();
    assert_eq!(req2.signature, expected);
}

#[test]
fn prepared_requests_use_fresh_nonces() {
    let mut client = fresh_client();
    let r1 = client.prepare_balance().unwrap();
    let r2 = client.prepare_balance().unwrap();
    assert_ne!(r1.body, r2.body);
    assert_ne!(r1.signature, r2.signature);
}
