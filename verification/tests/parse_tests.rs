use guarded_transfer::address::parse_address;
use guarded_transfer::amount::parse_amount;
use guarded_transfer::errors::TransferError;
use guarded_transfer::intent::TransferIntent;
use guarded_transfer::units::WEI_PER_ETHER;
use guarded_transfer::units::WEI_PER_GWEI;
use guarded_transfer::units::split_units;

#[test]
fn address_with_marker_decodes() {
    let a = parse_address(&b"0x75faf114eafb1BDbe2F0316DF893fd58CE46AA4d".to_vec()).unwrap();
    assert_eq!(a.bytes.len(), 20);
    assert_eq!(a.bytes[0], 0x75);
    assert_eq!(a.bytes[1], 0xfa);
    assert_eq!(a.bytes[19], 0x4d);
}

#[test]
fn address_without_marker_decodes() {
    let a = parse_address(&b"3f1f78ED98Cd180794f1346F5bD379D5Ec47DE90".to_vec()).unwrap();
    assert_eq!(a.bytes[0], 0x3f);
    assert_eq!(a.bytes[19], 0x90);
}

#[test]
fn address_of_wrong_length_is_config_error() {
    assert_eq!(
        parse_address(&b"0x1234".to_vec()).unwrap_err(),
        TransferError::ConfigError
    );
    assert_eq!(parse_address(&b"".to_vec()).unwrap_err(), TransferError::ConfigError);
    assert_eq!(
        parse_address(&b"0x75faf114eafb1BDbe2F0316DF893fd58CE46AA4d00".to_vec()).unwrap_err(),
        TransferError::ConfigError
    );
}

#[test]
fn address_with_a_bad_digit_is_config_error() {
    assert_eq!(
        parse_address(&b"0x75faf114eafb1BDbe2F0316DF893fd58CE46AAg4".to_vec()).unwrap_err(),
        TransferError::ConfigError
    );
}

#[test]
fn amount_one_thousandth() {
    assert_eq!(parse_amount(&b"0.001".to_vec()), Ok(1_000_000_000_000_000));
}

#[test]
fn amount_whole_units() {
    assert_eq!(parse_amount(&b"1".to_vec()), Ok(WEI_PER_ETHER));
    assert_eq!(parse_amount(&b"42".to_vec()), Ok(42 * WEI_PER_ETHER));
    assert_eq!(parse_amount(&b"0".to_vec()), Ok(0));
}

#[test]
fn amount_with_fraction() {
    assert_eq!(parse_amount(&b"1.5".to_vec()), Ok(1_500_000_000_000_000_000));
    assert_eq!(
        parse_amount(&b"0.000000000000000001".to_vec()),
        Ok(1)
    );
}

#[test]
fn amount_malformed_is_config_error() {
    for text in [
        &b""[..],
        b".",
        b".5",
        b"1.",
        b"1.2.3",
        b"1,5",
        b"one",
        b"0.0000000000000000001",
    ] {
        assert_eq!(
            parse_amount(&text.to_vec()).unwrap_err(),
            TransferError::ConfigError,
            "text {:?} should be rejected",
            text
        );
    }
}

#[test]
fn amount_beyond_the_balance_type_is_config_error() {
    assert!(parse_amount(&b"340282366920938463463".to_vec()).is_ok());
    assert_eq!(
        parse_amount(&b"340282366920938463464".to_vec()).unwrap_err(),
        TransferError::ConfigError
    );
}

#[test]
fn intent_from_config_combines_both_parsers() {
    let recipient = b"0x3f1f78ED98Cd180794f1346F5bD379D5Ec47DE90".to_vec();
    let intent = TransferIntent::from_config(&recipient, &b"0.001".to_vec()).unwrap();
    assert_eq!(intent.amount, 1_000_000_000_000_000);
    assert_eq!(intent.recipient.bytes[0], 0x3f);
}

#[test]
fn intent_rejects_a_zero_amount() {
    let recipient = b"0x3f1f78ED98Cd180794f1346F5bD379D5Ec47DE90".to_vec();
    assert_eq!(
        TransferIntent::from_config(&recipient, &b"0".to_vec()).unwrap_err(),
        TransferError::ConfigError
    );
    assert_eq!(
        TransferIntent::from_config(&recipient, &b"0.000".to_vec()).unwrap_err(),
        TransferError::ConfigError
    );
}

#[test]
fn split_units_divides_for_display() {
    assert_eq!(
        split_units(1_500_000_000_000_000_000, WEI_PER_ETHER),
        (1, 500_000_000_000_000_000)
    );
    assert_eq!(split_units(2_500_000_000, WEI_PER_GWEI), (2, 500_000_000));
    assert_eq!(split_units(0, WEI_PER_ETHER), (0, 0));
}
