use solclout::codec::{
    decode_creator, decode_instance, decode_instruction, encode_creator, encode_instance,
    encode_instruction, key_to_vec, read_key,
};
use solclout::instruction::{
    BuyCreatorCoinsArgs, InitializeCreatorArgs, InitializeSolcloutArgs, SellCreatorCoinsArgs,
    SolcloutInstruction,
};
use solclout::state::{KeyId, SolcloutCreator, SolcloutInstance};

fn sample_key() -> KeyId {
    KeyId { w0: 0x0807060504030201, w1: 0x100f0e0d0c0b0a09, w2: 0x1817161514131211, w3: 0x201f1e1d1c1b1a19 }
}

#[test]
fn key_bytes_are_little_endian_words() {
    let bytes = key_to_vec(&sample_key());
    let expected: Vec<u8> = (1u8..=32u8).collect();
    assert_eq!(bytes, expected);
    assert_eq!(read_key(&bytes, 0), sample_key());
}

#[test]
fn instance_record_round_trip() {
    let rec = SolcloutInstance {
        solclout_token: sample_key(),
        solclout_storage: KeyId { w0: 5, w1: 6, w2: 7, w3: 8 },
        token_program_id: KeyId { w0: 9, w1: 10, w2: 11, w3: 12 },
        initialized: true,
    };
    let mut bytes = encode_instance(&rec);
    assert_eq!(bytes.len(), 97);
    assert_eq!(bytes[96], 1);
    bytes.push(0);
    bytes.push(0);
    assert_eq!(decode_instance(&bytes), Some(rec));
    bytes[96] = 3;
    assert_eq!(decode_instance(&bytes), None);
    assert_eq!(decode_instance(&[0u8; 42]), None);
}

#[test]
fn fresh_instance_buffer_decodes_uninitialized() {
    let rec = decode_instance(&[0u8; 99]).unwrap();
    assert!(!rec.initialized);
    assert_eq!(rec.token_program_id, KeyId { w0: 0, w1: 0, w2: 0, w3: 0 });
}

#[test]
fn creator_record_round_trip() {
    let rec = SolcloutCreator {
        creator_token: sample_key(),
        solclout_instance: KeyId { w0: 13, w1: 14, w2: 15, w3: 16 },
        founder_rewards_account: KeyId { w0: 17, w1: 18, w2: 19, w3: 20 },
        founder_reward_percentage: 0xBEEF,
        initialized: true,
        authority_nonce: 0xFE,
    };
    let bytes = encode_creator(&rec);
    assert_eq!(bytes.len(), 100);
    assert_eq!(&bytes[96..100], &[0xEF, 0xBE, 1, 0xFE]);
    assert_eq!(decode_creator(&bytes), Some(rec));
    assert_eq!(decode_creator(&bytes[..99]), None);
}

#[test]
fn instruction_wire_format_is_tagged_and_exact() {
    let init = SolcloutInstruction::InitializeSolclout(InitializeSolcloutArgs {
        token_program_id: sample_key(),
        nonce: 0xAB,
    });
    let bytes = encode_instruction(&init);
    assert_eq!(bytes.len(), 34);
    assert_eq!(bytes[0], 0);
    assert_eq!(bytes[33], 0xAB);
    assert_eq!(decode_instruction(&bytes), Some(init));

    let creator = SolcloutInstruction::InitializeCreator(InitializeCreatorArgs {
        founder_reward_percentage: 1000,
        nonce: 7,
    });
    assert_eq!(encode_instruction(&creator), vec![1, 0xE8, 0x03, 7]);
    assert_eq!(decode_instruction(&[1, 0xE8, 0x03, 7]), Some(creator));

    let buy = SolcloutInstruction::BuyCreatorCoins(BuyCreatorCoinsArgs { lamports: 0x0102030405060708 });
    assert_eq!(encode_instruction(&buy), vec![2, 8, 7, 6, 5, 4, 3, 2, 1]);
    assert_eq!(decode_instruction(&encode_instruction(&buy)), Some(buy));

    let sell = SolcloutInstruction::SellCreatorCoins(SellCreatorCoinsArgs { lamports: 1 });
    assert_eq!(encode_instruction(&sell), vec![3, 1, 0, 0, 0, 0, 0, 0, 0]);
    assert_eq!(decode_instruction(&encode_instruction(&sell)), Some(sell));

    // Unknown tags, empty input, and trailing bytes all decode to nothing.
    assert_eq!(decode_instruction(&[]), None);
    assert_eq!(decode_instruction(&[4, 0, 0]), None);
    assert_eq!(decode_instruction(&[2, 8, 7, 6, 5, 4, 3, 2, 1, 0]), None);
}

#[test]
fn price_favors_the_purchaser() {
    // A numerator below 10^21 rounds down to zero.
    assert_eq!(solclout::pricing::price(0, 1000), 0);
    assert_eq!(solclout::pricing::price(0, 1_000_000_000_000), 1_000_000_000_000_000);
}
