use attested_router::bytes128::McU128;
use attested_router::bytes128::RngSeed32;

#[test]
fn u128_round_trip_small() {
    let m = McU128::from_u128(1);
    assert_eq!(m.bytes[15], 1);
    for i in 0..15 {
        assert_eq!(m.bytes[i], 0);
    }
    assert_eq!(m.to_u128(), 1);
}

#[test]
fn u128_round_trip_pattern() {
    let v: u128 = 0x0123456789abcdef0011223344556677;
    let m = McU128::from_u128(v);
    assert_eq!(m.bytes[0], 0x01);
    assert_eq!(m.bytes[1], 0x23);
    assert_eq!(m.bytes[7], 0xef);
    assert_eq!(m.bytes[15], 0x77);
    assert_eq!(m.to_u128(), v);
}

#[test]
fn u128_round_trip_extremes() {
    assert_eq!(McU128::from_u128(0).to_u128(), 0);
    assert_eq!(McU128::from_u128(u128::MAX).to_u128(), u128::MAX);
    let m = McU128::from_u128(u128::MAX);
    for i in 0..16 {
        assert_eq!(m.bytes[i], 0xff);
    }
}

#[test]
fn u128_bytes_to_value() {
    let mut bytes = [0u8; 16];
    bytes[14] = 0x02;
    bytes[15] = 0x01;
    let m = McU128 { bytes };
    assert_eq!(m.to_u128(), 0x0201);
}

#[test]
fn seed_keeps_bytes() {
    let mut raw = [0u8; 32];
    for i in 0..32 {
        raw[i] = i as u8;
    }
    let seed = RngSeed32::new(raw);
    assert_eq!(*seed.as_bytes(), raw);
}
