use helgoboss_midi::{Channel, ControllerNumber, OutOfRange, U14, U7};

#[test]
fn channel_range_is_enforced() {
    assert_eq!(Channel::try_new(16), Err(OutOfRange));
    assert_eq!(Channel::try_new(255), Err(OutOfRange));
    assert_eq!(Channel::try_new(15).map(|c| c.get()), Ok(15));
    assert_eq!(Channel::try_new(0).map(|c| c.get()), Ok(0));
}

#[test]
fn u7_range_is_enforced() {
    assert_eq!(U7::try_new(128), Err(OutOfRange));
    assert_eq!(U7::try_new(255), Err(OutOfRange));
    assert_eq!(U7::try_new(127).map(|v| v.get()), Ok(127));
    assert_eq!(U7::try_new(0).map(|v| v.get()), Ok(0));
}

#[test]
fn u14_range_is_enforced() {
    assert_eq!(U14::try_new(16384), Err(OutOfRange));
    assert_eq!(U14::try_new(65535), Err(OutOfRange));
    assert_eq!(U14::try_new(16383).map(|v| v.get()), Ok(16383));
    assert_eq!(U14::try_new(0).map(|v| v.get()), Ok(0));
}

#[test]
fn controller_number_range_is_enforced() {
    assert_eq!(ControllerNumber::try_new(128), Err(OutOfRange));
    assert_eq!(ControllerNumber::try_new(127).map(|n| n.get()), Ok(127));
    assert_eq!(ControllerNumber::try_new(0).map(|n| n.get()), Ok(0));
}

#[test]
fn maxima_are_the_bit_widths() {
    assert_eq!(Channel::MAX, 15);
    assert_eq!(U7::MAX, 127);
    assert_eq!(U14::MAX, 16383);
    assert_eq!(ControllerNumber::MAX, 127);
}

#[test]
fn new_and_get_are_lossless() {
    for n in 0..=15u8 {
        assert_eq!(Channel::new(n).get(), n);
    }
    for n in 0..=127u8 {
        assert_eq!(U7::new(n).get(), n);
        assert_eq!(ControllerNumber::new(n).get(), n);
    }
    for n in 0..=16383u16 {
        assert_eq!(U14::new(n).get(), n);
    }
}

#[test]
fn new_agrees_with_try_new() {
    assert_eq!(Ok(Channel::new(7)), Channel::try_new(7));
    assert_eq!(Ok(U7::new(100)), U7::try_new(100));
    assert_eq!(Ok(U14::new(1057)), U14::try_new(1057));
    assert_eq!(Ok(ControllerNumber::new(34)), ControllerNumber::try_new(34));
}

#[test]
fn equality_is_by_number() {
    assert_eq!(Channel::new(5), Channel::new(5));
    assert_ne!(Channel::new(5), Channel::new(6));
    assert_ne!(U14::new(1057), U14::new(1058));
}

#[test]
fn controller_numbers_0_to_31_have_an_lsb_partner() {
    for n in 0..=31u8 {
        assert_eq!(
            ControllerNumber::new(n).corresponding_14_bit_lsb_controller_number(),
            Some(ControllerNumber::new(n + 32))
        );
    }
}

#[test]
fn controller_numbers_from_32_have_no_lsb_partner() {
    for n in 32..=127u8 {
        assert_eq!(
            ControllerNumber::new(n).corresponding_14_bit_lsb_controller_number(),
            None
        );
    }
}
