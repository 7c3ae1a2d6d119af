use ewasm_api::{
    Address, Bytes20, Bytes32, Difficulty, EtherValue, StorageKey, StorageValue, Topic, Uint128,
    Uint256,
};

#[test]
fn default_uint128_is_sixteen_zero_bytes() {
    let value = Uint128::default();
    assert_eq!(value.bytes.len(), 16);
    assert_eq!(value.bytes, [0u8; 16]);
}

#[test]
fn default_uint256_is_thirty_two_zero_bytes() {
    let value = Uint256::default();
    assert_eq!(value.bytes.len(), 32);
    assert_eq!(value.bytes, [0u8; 32]);
}

#[test]
fn default_bytes20_is_twenty_zero_bytes() {
    let value = Bytes20::default();
    assert_eq!(value.bytes.len(), 20);
    assert_eq!(value.bytes, [0u8; 20]);
}

#[test]
fn default_bytes32_is_thirty_two_zero_bytes() {
    let value = Bytes32::default();
    assert_eq!(value.bytes.len(), 32);
    assert_eq!(value.bytes, [0u8; 32]);
}

#[test]
fn aliases_have_the_width_of_their_type() {
    assert_eq!(EtherValue::default().bytes, [0u8; 16]);
    assert_eq!(Address::default().bytes, [0u8; 20]);
    assert_eq!(StorageKey::default().bytes, [0u8; 32]);
    assert_eq!(StorageValue::default().bytes, [0u8; 32]);
    assert_eq!(Topic::default().bytes, [0u8; 32]);
    assert_eq!(Difficulty::default().bytes, [0u8; 32]);
    assert_eq!(ewasm_api::types::Hash::default().bytes, [0u8; 32]);
}

#[test]
fn copies_are_independent() {
    let mut first = Bytes20::default();
    let second = first;
    first.bytes[0] = 0xff;
    assert_eq!(first.bytes[0], 0xff);
    assert_eq!(second.bytes, [0u8; 20]);
    let mut key = Bytes32 { bytes: [7u8; 32] };
    let kept = key.clone();
    key.bytes[31] = 0;
    assert_eq!(kept.bytes, [7u8; 32]);
    assert_ne!(key, kept);
}

#[test]
fn any_bit_pattern_is_a_value() {
    let value = Uint128 { bytes: [0xffu8; 16] };
    assert_eq!(value.bytes[15], 0xff);
    let mut address = Bytes20::default();
    address.bytes[19] = 1;
    assert_ne!(address, Bytes20::default());
}
