use kraken_client::client::KrakenClient;

fn fresh_client() -> KrakenClient {
    KrakenClient::new(
        "key".to_string(),
        "c2VjcmV0".to_string(),
        "XBTUSD".to_string(),
    )
}

#[test]
fn nonces_strictly_increase_under_rapid_calls() {
    let mut client = fresh_client();
    let n = 1000;
    let mut values: Vec<u64> = Vec::with_capacity(n);
    for _ in 0..n {
        let s = client.generate_nonce();
        values.push(s.parse::<u64>().expect("nonce is a decimal numeral"));
    }
    assert_eq!(values.len(), n);
    for w in values.windows(2) {
        assert!(w[1] > w[0], "nonce did not increase: {} then {}", w[0], w[1]);
    }
}

#[test]
fn nonce_strings_have_no_duplicates() {
    let mut client = fresh_client();
    let mut seen: Vec<String> = Vec::new();
    for _ in 0..200 {
        let s = client.generate_nonce();
        assert!(!seen.contains(&s), "duplicate nonce {}", s);
        seen.push(s);
    }
}

#[test]
fn independent_clients_do_not_interfere() {
    let mut a = fresh_client();
    let mut b = fresh_client();
    let a1 = a.generate_nonce().parse::<u64>().unwrap();
    let b1 = b.generate_nonce().parse::<u64>().unwrap();
    let a2 = a.generate_nonce().parse::<u64>().unwrap();
    let b2 = b.generate_nonce().parse::<u64>().unwrap();
    assert!(a2 > a1);
    assert!(b2 > b1);
}

#[test]
fn new_client_starts_at_zero() {
    let client = fresh_client();
    assert_eq!(client.last_nonce, 0);
    assert_eq!(client.api_key, "key");
    assert_eq!(client.api_secret, "c2VjcmV0");
    assert_eq!(client.pair, "XBTUSD");
}

#[test]
fn nonce_tracks_last_nonce_field() {
    let mut client = fresh_client();
    let s = client.generate_nonce();
    assert_eq!(s, client.last_nonce.to_string());
    let t = client.generate_nonce();
    assert_eq!(t, client.last_nonce.to_string());
}
