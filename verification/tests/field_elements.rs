use cairo_felt::Felt252;
use cairo_run_report::field::FieldElement;

fn bytes_from_low(low: &[u8]) -> [u8; 32] {
    let mut bytes = [0u8; 32];
    let offset = 32 - low.len();
    bytes[offset..].copy_from_slice(low);
    bytes
}

#[test]
fn zero_is_a_single_digit() {
    assert_eq!(FieldElement::from_u64(0).to_decimal(), "0");
    assert_eq!(FieldElement::from_bytes_be([0u8; 32]).to_decimal(), "0");
}

#[test]
fn single_digits() {
    for digit in 0u64..10 {
        assert_eq!(FieldElement::from_u64(digit).to_decimal(), format!("{}", digit));
    }
}

#[test]
fn ten_has_two_digits() {
    assert_eq!(FieldElement::from_u64(10).to_decimal(), "10");
}

#[test]
fn forty_two() {
    assert_eq!(FieldElement::from_u64(42).to_decimal(), "42");
}

#[test]
fn inner_zeros_are_kept() {
    assert_eq!(FieldElement::from_u64(1_000_000).to_decimal(), "1000000");
    assert_eq!(FieldElement::from_u64(100_200_003).to_decimal(), "100200003");
}

#[test]
fn byte_boundaries() {
    assert_eq!(FieldElement::from_u64(255).to_decimal(), "255");
    assert_eq!(FieldElement::from_u64(256).to_decimal(), "256");
    assert_eq!(FieldElement::from_u64(65_535).to_decimal(), "65535");
    assert_eq!(FieldElement::from_u64(65_536).to_decimal(), "65536");
}

#[test]
fn largest_u64() {
    assert_eq!(FieldElement::from_u64(u64::MAX).to_decimal(), "18446744073709551615");
}

#[test]
fn from_u64_fills_the_low_bytes() {
    let element = FieldElement::from_u64(0x0102_0304_0506_0708);
    assert_eq!(element.to_bytes_be(), bytes_from_low(&[1, 2, 3, 4, 5, 6, 7, 8]));
    assert_eq!(FieldElement::from_u64(42).to_bytes_be(), bytes_from_low(&[42]));
}

#[test]
fn bytes_round_trip() {
    let mut bytes = [0u8; 32];
    for (i, byte) in bytes.iter_mut().enumerate() {
        *byte = (i * 7 + 3) as u8;
    }
    assert_eq!(FieldElement::from_bytes_be(bytes).to_bytes_be(), bytes);
    assert_eq!(FieldElement::from_bytes_be(bytes), FieldElement { bytes_be: bytes });
}

#[test]
fn one_past_u64() {
    let element = FieldElement::from_bytes_be(bytes_from_low(&[1, 0, 0, 0, 0, 0, 0, 0, 0]));
    assert_eq!(element.to_decimal(), "18446744073709551616");
}

#[test]
fn largest_value_that_fits() {
    let element = FieldElement::from_bytes_be([0xff; 32]);
    assert_eq!(
        element.to_decimal(),
        "115792089237316195423570985008687907853269984665640564039457584007913129639935"
    );
}

#[test]
fn largest_field_element_of_the_engine() {
    let mut bytes = [0u8; 32];
    bytes[0] = 0x08;
    bytes[7] = 0x11;
    assert_eq!(
        FieldElement::from_bytes_be(bytes).to_decimal(),
        "3618502788666131213697322783095070105623107215331596699973092056135872020480"
    );
}

#[test]
fn decimal_agrees_with_felt_display() {
    let mut samples: Vec<[u8; 32]> = Vec::new();
    samples.push([0u8; 32]);
    samples.push(bytes_from_low(&[1]));
    samples.push(bytes_from_low(&[9]));
    samples.push(bytes_from_low(&[10]));
    samples.push(bytes_from_low(&[0xff, 0xff]));
    samples.push(bytes_from_low(&[1, 0, 0, 0, 0, 0, 0, 0, 0, 0, 0, 0, 0, 0, 0, 0, 0]));
    let mut seed: u64 = 0x9e37_79b9_7f4a_7c15;
    for _ in 0..200 {
        let mut bytes = [0u8; 32];
        for byte in bytes.iter_mut() {
            seed = seed.wrapping_mul(6364136223846793005).wrapping_add(1442695040888963407);
            *byte = (seed >> 56) as u8;
        }
        // Stay below the modulus of the field, so that the felt holds the
        // number as it is written.
        bytes[0] &= 0x07;
        samples.push(bytes);
    }
    for bytes in samples {
        let felt = Felt252::from_bytes_be(&bytes);
        let element = FieldElement::from_bytes_be(bytes);
        assert_eq!(element.to_decimal(), format!("{}", felt));
        assert_eq!(element.to_decimal(), format!("{:?}", felt));
    }
}

#[test]
fn bytes_agree_with_felt_bytes() {
    let felt = Felt252::from(1_000_000_007u64);
    let element = FieldElement::from_bytes_be(felt.to_be_bytes());
    assert_eq!(element, FieldElement::from_u64(1_000_000_007));
    assert_eq!(element.to_decimal(), "1000000007");
}
