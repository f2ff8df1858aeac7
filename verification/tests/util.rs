use helgoboss_midi::util::{
    build_14_bit_value_from_two_7_bit_values, build_byte_from_nibbles,
    extract_high_7_bit_value_from_14_bit_value, extract_high_nibble_from_byte,
    extract_low_7_bit_value_from_14_bit_value, extract_low_nibble_from_byte,
    with_low_nibble_added,
};
use helgoboss_midi::{Channel, U14};

#[test]
fn splits_0xb5_into_nibbles() {
    assert_eq!(extract_high_nibble_from_byte(0xB5), Channel::new(0xB));
    assert_eq!(extract_low_nibble_from_byte(0xB5), Channel::new(5));
}

#[test]
fn joins_nibbles_into_0xb5() {
    assert_eq!(build_byte_from_nibbles(Channel::new(0xB), Channel::new(5)), 0xB5);
    assert_eq!(build_byte_from_nibbles(Channel::new(0), Channel::new(0)), 0);
    assert_eq!(build_byte_from_nibbles(Channel::new(15), Channel::new(15)), 255);
    assert_eq!(build_byte_from_nibbles(Channel::new(1), Channel::new(0)), 16);
}

#[test]
fn join_after_split_is_identity_on_every_byte() {
    for b in 0..=255u8 {
        let high = extract_high_nibble_from_byte(b);
        let low = extract_low_nibble_from_byte(b);
        assert_eq!(high.get(), b / 16);
        assert_eq!(low.get(), b % 16);
        assert_eq!(build_byte_from_nibbles(high, low), b);
    }
}

#[test]
fn split_after_join_is_identity_on_every_pair_of_nibbles() {
    for h in 0..=15u8 {
        for l in 0..=15u8 {
            let byte = build_byte_from_nibbles(Channel::new(h), Channel::new(l));
            assert_eq!(byte, h * 16 + l);
            assert_eq!(extract_high_nibble_from_byte(byte).get(), h);
            assert_eq!(extract_low_nibble_from_byte(byte).get(), l);
        }
    }
}

#[test]
fn raw_halves_of_1057_are_8_and_33() {
    assert_eq!(extract_high_7_bit_value_from_14_bit_value(U14::new(1057)), 8);
    assert_eq!(extract_low_7_bit_value_from_14_bit_value(U14::new(1057)), 33);
    assert_eq!(extract_high_7_bit_value_from_14_bit_value(U14::new(16383)), 127);
    assert_eq!(extract_low_7_bit_value_from_14_bit_value(U14::new(16383)), 127);
}

#[test]
fn raw_halves_join_into_1057() {
    assert_eq!(build_14_bit_value_from_two_7_bit_values(8, 33), U14::new(1057));
    assert_eq!(build_14_bit_value_from_two_7_bit_values(127, 127), U14::new(16383));
    assert_eq!(build_14_bit_value_from_two_7_bit_values(0, 0), U14::new(0));
}

#[test]
fn raw_join_after_raw_split_is_identity() {
    for n in 0..=16383u16 {
        let value = U14::new(n);
        let high = extract_high_7_bit_value_from_14_bit_value(value);
        let low = extract_low_7_bit_value_from_14_bit_value(value);
        assert!(high <= 127);
        assert!(low <= 127);
        assert_eq!(build_14_bit_value_from_two_7_bit_values(high, low), value);
    }
}

#[test]
fn low_nibble_is_added_by_bitwise_or() {
    assert_eq!(with_low_nibble_added(0xB0, Channel::new(5)), 0xB5);
    assert_eq!(with_low_nibble_added(0xB3, Channel::new(5)), 0xB7);
    assert_eq!(with_low_nibble_added(0, Channel::new(15)), 15);
    assert_eq!(with_low_nibble_added(0xFF, Channel::new(0)), 0xFF);
}
