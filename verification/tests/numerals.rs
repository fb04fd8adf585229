use kraken_client::numeric::{check_float_literal, u64_to_dec_string};

#[test]
fn decimal_rendering_matches_std() {
    let cases: [u64; 8] = [
        0,
        7,
        10,
        99,
        100,
        1616492376594,
        u64::MAX - 1,
        u64::MAX,
    ];
    for n in cases {
        assert_eq!(u64_to_dec_string(n), n.to_string());
    }
}

#[test]
fn float_grammar_matches_std_parser() {
    let cases = [
        "0.5",
        "1.25",
        "not-a-number",
        "30000.1",
        "-1.5",
        "+.5",
        "5.",
        ".",
        "",
        "+",
        "1e5",
        "1E-5",
        "1.5e+10",
        "e5",
        ".e5",
        "1e",
        "1e+",
        "inf",
        "INF",
        "-inf",
        "infinity",
        "InFiNiTy",
        "nan",
        "NaN",
        "+nan",
        "infi",
        "in",
        "nanan",
        "0x10",
        " 1",
        "1 ",
        "1_000",
        "12345678901234567890123456789012345678901234567890",
        "1e999",
        "--1",
        "1.2.3",
        "1,5",
    ];
    for s in cases {
        assert_eq!(
            check_float_literal(s),
            s.parse::<f64>().is_ok(),
            "grammar and std disagree on {:?}",
            s
        );
    }
}
