use pigeon::types::{PubMessage, PubType};
use pigeon::utils::{fill_message_decimal, fill_message_integral};

#[test]
fn filling_from_a_decimal_truncates_the_integral() {
    let msg = PubMessage { pub_type: PubType::LongDistanceSensor, integral: 0, decimal: 0 };
    let bits = 12.75f32.to_bits();
    let filled = fill_message_decimal(bits, msg);
    assert_eq!(filled.pub_type, PubType::LongDistanceSensor);
    assert_eq!(filled.decimal, bits);
    assert_eq!(filled.integral, 12);

    let negative = fill_message_decimal((-3.9f32).to_bits(), filled);
    assert_eq!(negative.integral, -3);
    assert_eq!(negative.pub_type, PubType::LongDistanceSensor);

    let saturated = fill_message_decimal(1.0e9f32.to_bits(), msg);
    assert_eq!(saturated.integral, 32767);

    let invalid = fill_message_decimal(f32::NAN.to_bits(), msg);
    assert_eq!(invalid.integral, 0);
}

#[test]
fn filling_from_an_integral_mirrors_it_exactly() {
    let msg = PubMessage { pub_type: PubType::PowerButton, integral: 0, decimal: 0 };
    let filled = fill_message_integral(1, msg);
    assert_eq!(filled.pub_type, PubType::PowerButton);
    assert_eq!(filled.integral, 1);
    assert_eq!(filled.decimal, 1.0f32.to_bits());

    let wide = fill_message_integral(-20000, msg);
    assert_eq!(wide.integral, -20000);
    assert_eq!(wide.decimal, (-20000.0f32).to_bits());
    assert_eq!(f32::from_bits(wide.decimal), -20000.0);
}
