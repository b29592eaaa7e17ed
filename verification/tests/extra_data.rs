use kubchain::extra_data::ExtraData;
use kubchain::types::{
    Address, SystemContracts, EXTRA_CONTRACTS_LEN, EXTRA_SEAL, EXTRA_VANITY,
};

#[test]
fn test_decode_standard_block() {
    let mut data = vec![0u8; EXTRA_VANITY + EXTRA_SEAL];
    data[0] = 0x42; // vanity marker
    data[EXTRA_VANITY] = 0x01; // signature marker

    let extra = ExtraData::decode(&data).unwrap();
    assert_eq!(extra.vanity[0], 0x42);
    assert!(extra.validators.is_empty());
    assert!(extra.system_contracts.is_none());
}

#[test]
fn test_decode_span_boundary() {
    // 2 validators + 3 system contracts
    let num_validators = 2;
    let payload_len = num_validators * 20 + EXTRA_CONTRACTS_LEN;
    let total_len = EXTRA_VANITY + payload_len + EXTRA_SEAL;
    let mut data = vec![0u8; total_len];

    // Fill validator 1
    let addr1_offset = EXTRA_VANITY;
    data[addr1_offset] = 0xAA;

    // Fill validator 2
    let addr2_offset = EXTRA_VANITY + 20;
    data[addr2_offset] = 0xBB;

    // Fill stake_manager
    let sc_offset = EXTRA_VANITY + num_validators * 20;
    data[sc_offset] = 0x11;

    // Fill slash_manager
    data[sc_offset + 20] = 0x22;

    // Fill super_node
    data[sc_offset + 40] = 0x33;

    let extra = ExtraData::decode(&data).unwrap();
    assert_eq!(extra.validators.len(), 2);
    assert_eq!(extra.validators[0].as_slice()[0], 0xAA);
    assert_eq!(extra.validators[1].as_slice()[0], 0xBB);

    let sc = extra.system_contracts.unwrap();
    assert_eq!(sc.stake_manager.as_slice()[0], 0x11);
    assert_eq!(sc.slash_manager.as_slice()[0], 0x22);
    assert_eq!(sc.super_node.as_slice()[0], 0x33);
}

#[test]
fn test_encode_decode_roundtrip() {
    let extra = ExtraData {
        vanity: [0x42; EXTRA_VANITY],
        validators: vec![Address::repeat_byte(0xAA), Address::repeat_byte(0xBB)],
        system_contracts: Some(SystemContracts {
            stake_manager: Address::repeat_byte(0x11),
            slash_manager: Address::repeat_byte(0x22),
            super_node: Address::repeat_byte(0x33),
        }),
        seal: [0xFF; EXTRA_SEAL],
    };

    let encoded = extra.encode();
    let decoded = ExtraData::decode(&encoded).unwrap();

    assert_eq!(decoded.vanity, extra.vanity);
    assert_eq!(decoded.validators, extra.validators);
    assert_eq!(decoded.system_contracts, extra.system_contracts);
    assert_eq!(decoded.seal, extra.seal);
}

#[test]
fn test_too_short_returns_none() {
    let data = vec![0u8; EXTRA_VANITY + EXTRA_SEAL - 1];
    assert!(ExtraData::decode(&data).is_none());
}

#[test]
fn decode_rejects_payload_shorter_than_contracts() {
    let data = vec![0u8; EXTRA_VANITY + 40 + EXTRA_SEAL];
    assert!(ExtraData::decode(&data).is_none());
}

#[test]
fn decode_rejects_misaligned_validators() {
    let data = vec![0u8; EXTRA_VANITY + EXTRA_CONTRACTS_LEN + 21 + EXTRA_SEAL];
    assert!(ExtraData::decode(&data).is_none());
}

#[test]
fn decode_contracts_without_validators() {
    let mut data = vec![0u8; EXTRA_VANITY + EXTRA_CONTRACTS_LEN + EXTRA_SEAL];
    data[EXTRA_VANITY + 40] = 0x77;
    let extra = ExtraData::decode(&data).unwrap();
    assert!(extra.validators.is_empty());
    assert!(!extra.has_validators());
    assert_eq!(extra.system_contracts.unwrap().super_node.as_slice()[0], 0x77);
}

#[test]
fn encode_layout_and_lengths() {
    let extra = ExtraData {
        vanity: [1; EXTRA_VANITY],
        validators: vec![Address::repeat_byte(0xAA)],
        system_contracts: Some(SystemContracts::default()),
        seal: [2; EXTRA_SEAL],
    };
    assert_eq!(extra.validators_bytes_len(), 20 + 60);
    assert!(extra.has_validators());
    let bytes = extra.encode();
    assert_eq!(bytes.len(), 32 + 20 + 60 + 65);
    assert_eq!(bytes[31], 1);
    assert_eq!(bytes[32], 0xAA);
    assert_eq!(bytes[52], 0);
    assert_eq!(bytes[bytes.len() - 1], 2);
    // Re-encoding what was decoded gives the same bytes back.
    let decoded = ExtraData::decode(&bytes).unwrap();
    assert_eq!(decoded.encode(), bytes);
}

#[test]
fn seal_data_keeps_only_vanity() {
    let mut data = vec![7u8; EXTRA_VANITY + EXTRA_SEAL + 20];
    data[EXTRA_VANITY + 20] = 9;
    let signed = ExtraData::seal_data(&data);
    assert_eq!(signed, data[..EXTRA_VANITY].to_vec());
    let exact = vec![5u8; EXTRA_VANITY + EXTRA_SEAL];
    assert_eq!(ExtraData::seal_data(&exact), vec![5u8; EXTRA_VANITY]);
    let short = vec![3u8; 10];
    assert_eq!(ExtraData::seal_data(&short), short);
}
