use liquidity_lending::codec::{decode_payload, encode_payload, Selector, SelectorScheme};
use liquidity_lending::relay::serialize_kamino_instruction;

#[test]
fn encode_single_byte_payload_is_selector_then_le_amount() {
    let amount: u64 = 1_000_000_000;
    let data = encode_payload(&Selector::Index(13), amount);
    let mut expected = vec![13u8];
    expected.extend_from_slice(&amount.to_le_bytes());
    assert_eq!(data, expected);
    assert_eq!(data.len(), 9);
    assert_eq!(data, vec![13u8, 0, 202, 154, 59, 0, 0, 0, 0]);
}

#[test]
fn encode_method_tag_payload_is_selector_then_le_amount() {
    let tag = [1u8, 2, 3, 4, 5, 6, 7, 8];
    let amount: u64 = 500_000;
    let data = encode_payload(&Selector::MethodTag(tag), amount);
    let mut expected = tag.to_vec();
    expected.extend_from_slice(&amount.to_le_bytes());
    assert_eq!(data, expected);
    assert_eq!(data.len(), 16);
}

#[test]
fn serialize_kamino_instruction_matches_manual_layout() {
    let amount: u64 = 1_000_000;
    let data = serialize_kamino_instruction(25, &amount).unwrap();
    let mut expected = vec![25u8];
    expected.extend_from_slice(&amount.to_le_bytes());
    assert_eq!(data, expected);
}

#[test]
fn round_trip_single_byte_recovers_selector_and_amount() {
    for amount in [0u64, 1, 255, 256, 1_000_000_000, u64::MAX] {
        let data = encode_payload(&Selector::Index(13), amount);
        let (sel, decoded) = decode_payload(&data, &SelectorScheme::SingleByte).unwrap();
        assert_eq!(sel, Selector::Index(13));
        assert_eq!(decoded, amount);
    }
}

#[test]
fn round_trip_method_tag_recovers_selector_and_amount() {
    let tag = [9u8, 8, 7, 6, 5, 4, 3, 2];
    for amount in [0u64, 1, 0x0123_4567_89ab_cdef, u64::MAX] {
        let data = encode_payload(&Selector::MethodTag(tag), amount);
        let (sel, decoded) = decode_payload(&data, &SelectorScheme::EightByteTag).unwrap();
        assert_eq!(sel, Selector::MethodTag(tag));
        assert_eq!(decoded, amount);
    }
}

#[test]
fn decode_rejects_wrong_length() {
    assert_eq!(decode_payload(&vec![13u8, 1, 2], &SelectorScheme::SingleByte), None);
    assert_eq!(decode_payload(&vec![], &SelectorScheme::SingleByte), None);
    let nine = encode_payload(&Selector::Index(13), 7);
    assert_eq!(decode_payload(&nine, &SelectorScheme::EightByteTag), None);
}
