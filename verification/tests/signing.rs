use base64::Engine;
use hmac::Mac;
use sha2::Digest;

use kraken_client::client::KrakenClient;
use kraken_client::errors::SignatureError;
use kraken_client::signing::{sign, signature_message};

const SECRET_B64: &str = "c3VwZXIgc2VjcmV0IGtleQ==";
const PATH: &str = "/0/private/AddOrder";
const NONCE: &str = "1616492376594";
const BODY: &str = "nonce=1616492376594&ordertype=limit&type=buy&volume=1.25&price=30000.1&pair=XBTUSD";

#[test]
fn sign_is_deterministic() {
    let s1 = sign(SECRET_B64, PATH, NONCE, BODY).unwrap();
    let s2 = sign(SECRET_B64, PATH, NONCE, BODY).unwrap();
    assert_eq!(s1, s2);
}

#[test]
fn sign_changes_with_path() {
    let s1 = sign(SECRET_B64, PATH, NONCE, BODY).unwrap();
    let s2 = sign(SECRET_B64, "/0/private/Balance", NONCE, BODY).unwrap();
    assert_ne!(s1, s2);
}

#[test]
fn sign_changes_with_nonce() {
    let s1 = sign(SECRET_B64, PATH, NONCE, BODY).unwrap();
    let s2 = sign(SECRET_B64, PATH, "1616492376595", BODY).unwrap();
    assert_ne!(s1, s2);
}

#[test]
fn sign_changes_with_body() {
    let s1 = sign(SECRET_B64, PATH, NONCE, BODY).unwrap();
    let s2 = sign(SECRET_B64, PATH, NONCE, "nonce=1616492376594").unwrap();
    assert_ne!(s1, s2);
}

#[test]
fn sign_changes_with_secret() {
    let other = base64::engine::general_purpose::STANDARD.encode(b"another key");
    let s1 = sign(SECRET_B64, PATH, NONCE, BODY).unwrap();
    let s2 = sign(&other, PATH, NONCE, BODY).unwrap();
    assert_ne!(s1, s2);
}

#[test]
fn sign_matches_direct_computation() {
    let signature = sign(SECRET_B64, PATH, NONCE, BODY).unwrap();

    let key = base64::engine::general_purpose::STANDARD
        .decode(SECRET_B64)
        .unwrap();
    let sha = sha2::Sha256::digest(format!("{}{}", NONCE, BODY).as_bytes());
    let mut message = PATH.as_bytes().to_vec();
    message.extend_from_slice(&sha);
    let mut mac = hmac::Hmac::<sha2::Sha512>::new_from_slice(&key).unwrap();
    mac.update(&message);
    let expected = base64::engine::general_purpose::STANDARD.encode(mac.finalize().into_bytes());

    assert_eq!(signature, expected);
}

#[test]
fn sign_rejects_bad_secret() {
    let r = sign("!!! not base64 !!!", PATH, NONCE, BODY);
    assert_eq!(r, Err(SignatureError::BadSecret));
}

#[test]
fn signature_message_layout() {
    let message = signature_message(PATH, NONCE, BODY);
    let sha = sha2::Sha256::digest(format!("{}{}", NONCE, BODY).as_bytes());
    let mut expected = PATH.as_bytes().to_vec();
    expected.extend_from_slice(&sha);
    assert_eq!(message, expected);
}

#[test]
fn client_signature_message_agrees() {
    let client = KrakenClient::new(
        "key".to_string(),
        SECRET_B64.to_string(),
        "XBTUSD".to_string(),
    );
    assert_eq!(
        client.create_signature_message(PATH, NONCE, BODY),
        signature_message(PATH, NONCE, BODY)
    );
}

#[test]
fn client_sign_message_is_hmac_of_bytes() {
    let client = KrakenClient::new(
        "key".to_string(),
        SECRET_B64.to_string(),
        "XBTUSD".to_string(),
    );
    let message = client.create_signature_message(PATH, NONCE, BODY);
    let signature = client.sign_message(&message).unwrap();

    let key = base64::engine::general_purpose::STANDARD
        .decode(SECRET_B64)
        .unwrap();
    let mut mac = hmac::Hmac::<sha2::Sha512>::new_from_slice(&key).unwrap();
    mac.update(&message);
    let expected = base64::engine::general_purpose::STANDARD.encode(mac.finalize().into_bytes());
    assert_eq!(signature, expected);
}

#[test]
fn client_sign_message_rejects_bad_secret() {
    let client = KrakenClient::new(
        "key".to_string(),
        "%%%".to_string(),
        "XBTUSD".to_string(),
    );
    let r = client.sign_message(b"anything");
    assert!(matches!(
        r,
        Err(kraken_client::errors::KrakenError::ParseError(_))
    ));
}
