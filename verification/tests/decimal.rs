use pigeon::decimal::{decimal_to_integral, integral_to_decimal};

/// The library's truncation of a decimal bit pattern agrees with Rust's
/// saturating float-to-int cast on the float those bits denote.
#[test]
fn truncation_matches_the_saturating_cast() {
    let values: Vec<f32> = vec![
        0.0,
        -0.0,
        0.25,
        -0.9999,
        1.0,
        1.5,
        -1.5,
        -8.75,
        100.0,
        123.456,
        -123.456,
        32767.0,
        32767.9,
        32768.0,
        -32768.0,
        -32769.0,
        -40000.0,
        65536.5,
        1.0e9,
        -1.0e9,
        3.4e38,
        -3.4e38,
        1.0e-40,
        -1.0e-40,
        f32::MIN_POSITIVE,
        f32::NAN,
        f32::INFINITY,
        f32::NEG_INFINITY,
    ];
    for x in values {
        assert_eq!(decimal_to_integral(x.to_bits()), x as i16, "bits {:#010x}", x.to_bits());
    }
}

#[test]
fn truncation_of_known_patterns() {
    assert_eq!(decimal_to_integral(0x3FC0_0000), 1); // 1.5
    assert_eq!(decimal_to_integral(0xC10C_0000), -8); // -8.75
    assert_eq!(decimal_to_integral(0x42C8_0000), 100); // 100.0
    assert_eq!(decimal_to_integral(0x7FC0_0000), 0); // a not-a-number pattern
    assert_eq!(decimal_to_integral(0x7F80_0000), 32767); // positive infinity
    assert_eq!(decimal_to_integral(0xFF80_0000), -32768); // negative infinity
}

/// Filling from an integral mirrors it exactly: the encoded pattern is the
/// one Rust's int-to-float cast produces, and it truncates back unchanged.
#[test]
fn integral_encoding_matches_the_cast_and_mirrors_back() {
    let values: Vec<i16> = vec![0, 1, -1, 2, 3, -7, 100, 127, 128, 255, 256, 12345, -12345,
        32767, -32767, -32768];
    for v in values {
        let bits = integral_to_decimal(v);
        assert_eq!(bits, (v as f32).to_bits(), "value {}", v);
        assert_eq!(decimal_to_integral(bits), v);
    }
}

#[test]
fn integral_encoding_of_known_values() {
    assert_eq!(integral_to_decimal(0), 0x0000_0000);
    assert_eq!(integral_to_decimal(1), 0x3F80_0000);
    assert_eq!(integral_to_decimal(-1), 0xBF80_0000);
    assert_eq!(integral_to_decimal(100), 0x42C8_0000);
    assert_eq!(integral_to_decimal(-32768), 0xC700_0000);
}
