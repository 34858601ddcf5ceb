use aetherium::{AetheriumIdentifier, AetheriumMessage, AetheriumProtocolError, H160, H256, U256};

fn sample_message() -> AetheriumMessage {
    AetheriumMessage {
        version: 3,
        nonce: 0xdeadbeef,
        origin: 10,
        sender: H256::from_low_u64_be(0x1234),
        destination: 1,
        recipient: H256::from_low_u64_be(0x5678),
        body: vec![1, 2, 3, 4, 5],
    }
}

#[test]
fn encode_layout() {
    let m = sample_message();
    let encoded = m.to_vec();
    assert_eq!(encoded.len(), 77 + 5);
    assert_eq!(encoded[0], 3);
    assert_eq!(&encoded[1..5], &[0xde, 0xad, 0xbe, 0xef]);
    assert_eq!(&encoded[5..9], &[0, 0, 0, 10]);
    assert_eq!(&encoded[9..41], m.sender.as_bytes());
    assert_eq!(&encoded[41..45], &[0, 0, 0, 1]);
    assert_eq!(&encoded[45..77], m.recipient.as_bytes());
    assert_eq!(&encoded[77..], &[1, 2, 3, 4, 5]);
}

#[test]
fn encode_then_decode_round_trip() {
    let m = sample_message();
    let encoded = m.to_vec();
    let decoded = AetheriumMessage::read_from(&encoded).unwrap();
    assert_eq!(decoded, m);
    let raw = AetheriumMessage::from_raw(&encoded);
    assert_eq!(raw, m);
}

#[test]
fn empty_body_round_trip() {
    let m = AetheriumMessage::default();
    let encoded = m.to_vec();
    assert_eq!(encoded.len(), 77);
    assert_eq!(AetheriumMessage::read_from(&encoded).unwrap(), m);
}

#[test]
fn decode_short_input_fails() {
    let short = vec![0u8; 76];
    let err = AetheriumMessage::read_from(&short).unwrap_err();
    assert!(matches!(err, AetheriumProtocolError::IoError));
}

#[test]
fn identifier_is_deterministic() {
    let m = sample_message();
    let first = m.id();
    let second = m.id();
    assert_eq!(first, second);
    let again = AetheriumMessage::read_from(&m.to_vec()).unwrap().id();
    assert_eq!(first, again);
    let mut other = sample_message();
    other.nonce = 1;
    assert_ne!(m.id(), other.id());
}

#[test]
fn default_message_fields() {
    let m = AetheriumMessage::default();
    assert_eq!(m.version, 3);
    assert_eq!(m.nonce, 0);
    assert_eq!(m.origin, 0);
    assert_eq!(m.sender, H256::zero());
    assert_eq!(m.destination, 0);
    assert_eq!(m.recipient, H256::zero());
    assert!(m.body.is_empty());
}

#[test]
fn h256_low_u64_layouts() {
    let be = H256::from_low_u64_be(0x0102030405060708);
    assert_eq!(&be.as_bytes()[..24], &[0u8; 24]);
    assert_eq!(&be.as_bytes()[24..], &[1, 2, 3, 4, 5, 6, 7, 8]);

    let le = H256::from_low_u64_le(0x0102030405060708);
    assert_eq!(&le.as_bytes()[..8], &[8, 7, 6, 5, 4, 3, 2, 1]);
    assert_eq!(&le.as_bytes()[8..], &[0u8; 24]);

    assert_eq!(H256::zero().as_bytes(), &[0u8; 32]);
    assert_ne!(H256::from_low_u64_be(1), H256::zero());
}

#[test]
fn identifier_ethereum_address() {
    let id = AetheriumIdentifier::from(H256::from_low_u64_be(0xabcd));
    assert!(id.is_ethereum_address());
    let h160 = id.as_ethereum_address();
    assert_eq!(&h160.as_bytes()[18..], &[0xab, 0xcd]);

    let mut wide = [0u8; 32];
    wide[0] = 1;
    let not_evm = AetheriumIdentifier::from(H256(wide));
    assert!(!not_evm.is_ethereum_address());

    let mut addr20 = [0u8; 20];
    addr20[19] = 9;
    let widened = AetheriumIdentifier::from(H160(addr20));
    assert!(widened.is_ethereum_address());
    assert_eq!(H256::from(widened), H256::from_low_u64_be(9));
}

#[test]
fn u256_basics() {
    assert!(U256::zero().is_zero());
    assert!(!U256::one().is_zero());
    assert_eq!(U256::from_u64(7), U256 { high: 0, low: 7 });
    assert_ne!(U256::zero(), U256::one());
}

#[test]
fn parse_u32_cases() {
    assert_eq!(aetherium::text::parse_u32("0"), Some(0));
    assert_eq!(aetherium::text::parse_u32("4294967295"), Some(u32::MAX));
    assert_eq!(aetherium::text::parse_u32("4294967296"), None);
    assert_eq!(aetherium::text::parse_u32(""), None);
    assert_eq!(aetherium::text::parse_u32("12a"), None);
    assert_eq!(aetherium::text::parse_u32("-1"), None);
}

#[test]
fn hex_encoding() {
    assert_eq!(
        aetherium::primitives::encode_hex_prefixed(&[0xbe, 0xef]),
        "0xbeef"
    );
    assert_eq!(aetherium::primitives::encode_hex_prefixed(&[]), "0x");
    assert_eq!(
        aetherium::primitives::encode_hex_prefixed(&[0x00, 0x1a]),
        "0x001a"
    );
}
