use zinc::runtime::number::truncate_to_i64;
use zinc::runtime::number_literal::parse_number_text;
use zinc::runtime::number_text::{js_canonical_number_string, number_display_string};

fn samples() -> Vec<f64> {
    let mut out: Vec<f64> = vec![
        0.0, 1.0, 2.0, 0.1, 0.2, 0.3, 0.5, 1.5, 123456.789, 1e15, 1e16, 1e20, 1e21, 1e22, 1e23,
        1e-6, 1e-7, 1e-5, 5e-324, 2.2250738585072014e-308, 2.225073858507201e-308,
        1.7976931348623157e308, 9007199254740993.0, 4503599627370496.5, 1e300, 1e-300, 3.14159,
        100.0, 1000000.0, 299792458.0, 6.02214076e23, 1.6e-19, 4294967296.0, 0.000001234,
        8.98846567431158e307, 1.2345678901234567e-10, 123456789012345680000.0,
    ];
    let mut x: u64 = 0x9E37_79B9_7F4A_7C15;
    let mut i = 0;
    while i < 300 {
        x = x.wrapping_mul(6364136223846793005).wrapping_add(1442695040888963407);
        let f = f64::from_bits(x);
        if f.is_finite() {
            out.push(f.abs());
        }
        i += 1;
    }
    out
}

#[test]
fn literals_round_to_nearest() {
    for f in samples() {
        let plain = format!("{}", f);
        assert_eq!(parse_number_text(&plain), f.to_bits(), "{}", plain);
        let scientific = format!("{:e}", f);
        assert_eq!(parse_number_text(&scientific), f.to_bits(), "{}", scientific);
    }
    for text in [
        "1", "0", "00012", "1.", ".5", "1e5", "1E+5", "1e-5", "0.1e1", "1_000.5", "9007199254740993",
        "1e400", "1e-400", "2.4703282292062327e-324", "2.4703282292062328e-324", "1e99999999999999999999",
        "1e-99999999999999999999", "0e99999999999999999999", "179769313486231580793e289",
        "0.000000000000000000000000000000000000000000000000000000000000000000000000000000001e80",
    ] {
        let clean: String = text.chars().filter(|&c| c != '_').collect();
        assert_eq!(parse_number_text(text), clean.parse::<f64>().unwrap().to_bits(), "{}", text);
    }
}

#[test]
fn malformed_literals_are_not_numbers() {
    for text in ["", ".", "e5", "1e", "1e+", "abc", "1.5.5", "12x", "+", "-"] {
        assert!(f64::from_bits(parse_number_text(text)).is_nan(), "{}", text);
    }
    assert_eq!(parse_number_text("-1.5"), (-1.5f64).to_bits());
    assert_eq!(parse_number_text("+2"), 2f64.to_bits());
    assert_eq!(parse_number_text("Infinity"), f64::INFINITY.to_bits());
    assert_eq!(parse_number_text("-inf"), f64::NEG_INFINITY.to_bits());
    assert!(f64::from_bits(parse_number_text("NaN")).is_nan());
}

#[test]
fn radix_literals() {
    assert_eq!(parse_number_text("0xFF"), 255f64.to_bits());
    assert_eq!(parse_number_text("0Xff_ff"), 65535f64.to_bits());
    assert_eq!(parse_number_text("0o77"), 63f64.to_bits());
    assert_eq!(parse_number_text("0b1010"), 10f64.to_bits());
    assert_eq!(parse_number_text("0x7FFFFFFFFFFFFFFF"), 9223372036854775807f64.to_bits());
    assert_eq!(parse_number_text("0x8000000000000000"), 0f64.to_bits());
    assert_eq!(parse_number_text("0x-8000000000000000"), (-9223372036854775808f64).to_bits());
    assert_eq!(parse_number_text("0b12"), 0f64.to_bits());
    assert_eq!(parse_number_text("0x"), 0f64.to_bits());
}

#[test]
fn display_uses_the_shortest_decimal() {
    for f in samples() {
        let expected = if f.fract() == 0.0 && f.abs() < 1e15 {
            format!("{}", f as i64)
        } else {
            format!("{}", f)
        };
        assert_eq!(number_display_string(f.to_bits()), expected);
        assert_eq!(
            number_display_string((-f).to_bits()),
            if f == 0.0 { "0".to_string() } else { format!("-{}", expected) }
        );
    }
    assert_eq!(number_display_string(f64::NAN.to_bits()), "NaN");
    assert_eq!(number_display_string(f64::INFINITY.to_bits()), "Infinity");
    assert_eq!(number_display_string(f64::NEG_INFINITY.to_bits()), "-Infinity");
}

#[test]
fn canonical_text_of_property_keys() {
    assert_eq!(js_canonical_number_string(0f64.to_bits()), "0");
    assert_eq!(js_canonical_number_string((-0f64).to_bits()), "0");
    assert_eq!(js_canonical_number_string(1e21f64.to_bits()), "1e+21");
    assert_eq!(js_canonical_number_string(1.5e300f64.to_bits()), "1.5e+300");
    assert_eq!(js_canonical_number_string(1e-7f64.to_bits()), "1e-7");
    assert_eq!(js_canonical_number_string(1e-6f64.to_bits()), "0.000001");
    assert_eq!(js_canonical_number_string(123.456f64.to_bits()), "123.456");
    assert_eq!(js_canonical_number_string((-2.5f64).to_bits()), "-2.5");
    assert_eq!(js_canonical_number_string(f64::NAN.to_bits()), "NaN");
    assert_eq!(js_canonical_number_string(f64::NEG_INFINITY.to_bits()), "-Infinity");
    assert_eq!(js_canonical_number_string(1e20f64.to_bits()), "100000000000000000000");
    assert_eq!(js_canonical_number_string(2.75f64.to_bits()), "2.75");
}

#[test]
fn truncation_saturates() {
    for f in samples() {
        assert_eq!(truncate_to_i64(f.to_bits()), f as i64);
        assert_eq!(truncate_to_i64((-f).to_bits()), (-f) as i64);
    }
    assert_eq!(truncate_to_i64(f64::NAN.to_bits()), 0);
    assert_eq!(truncate_to_i64(f64::INFINITY.to_bits()), i64::MAX);
    assert_eq!(truncate_to_i64(f64::NEG_INFINITY.to_bits()), i64::MIN);
}
