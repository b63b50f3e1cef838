//! Wire encoding of identities, account records and instructions: fixed
//! layout, little-endian integers, a one-byte tag in front of each
//! instruction payload, and a one-byte boolean in each record. Record
//! decoding ignores trailing bytes, since records sit at the front of a
//! fixed-size account buffer; instruction decoding consumes the whole
//! input.
use vstd::bytes::{
    spec_u16_from_le_bytes, spec_u16_to_le_bytes, spec_u64_from_le_bytes, spec_u64_to_le_bytes,
    u16_from_le_bytes, u16_to_le_bytes, u64_from_le_bytes, u64_to_le_bytes,
    lemma_auto_spec_u16_to_from_le_bytes, lemma_auto_spec_u64_to_from_le_bytes,
};
use vstd::prelude::*;
use vstd::slice::{slice_index_get, slice_subrange};

use crate::instruction::{
    BuyCreatorCoinsArgs, InitializeCreatorArgs, InitializeSolcloutArgs, SellCreatorCoinsArgs,
    SolcloutInstruction,
};
use crate::state::{KeyId, SolcloutCreator, SolcloutInstance};

verus! {

/// The 32 bytes of an identity: each word in little-endian order, lowest
/// word first.
pub open spec fn spec_key_bytes(k: KeyId) -> Seq<u8> {
    spec_u64_to_le_bytes(k.w0) + spec_u64_to_le_bytes(k.w1) + spec_u64_to_le_bytes(k.w2)
        + spec_u64_to_le_bytes(k.w3)
}

/// The identity held in 32 bytes; inverse of `spec_key_bytes`.
pub open spec fn spec_key_of(s: Seq<u8>) -> KeyId
    recommends
        s.len() == 32,
{
    KeyId {
        w0: spec_u64_from_le_bytes(s.subrange(0, 8)),
        w1: spec_u64_from_le_bytes(s.subrange(8, 16)),
        w2: spec_u64_from_le_bytes(s.subrange(16, 24)),
        w3: spec_u64_from_le_bytes(s.subrange(24, 32)),
    }
}

/// An identity survives the round trip through its 32-byte form.
pub proof fn lemma_key_round_trip(k: KeyId)
    ensures
        spec_key_bytes(k).len() == 32,
        spec_key_of(spec_key_bytes(k)) == k,
{
    lemma_auto_spec_u64_to_from_le_bytes();
    let b = spec_key_bytes(k);
    assert(b.subrange(0, 8) =~= spec_u64_to_le_bytes(k.w0));
    assert(b.subrange(8, 16) =~= spec_u64_to_le_bytes(k.w1));
    assert(b.subrange(16, 24) =~= spec_u64_to_le_bytes(k.w2));
    assert(b.subrange(24, 32) =~= spec_u64_to_le_bytes(k.w3));
}

/// Serializes an identity into its 32-byte form.
pub fn key_to_vec(k: &KeyId) -> (out: Vec<u8>)
    ensures
        out@ == spec_key_bytes(*k),
{
    let mut out = u64_to_le_bytes(k.w0);
    let mut b1 = u64_to_le_bytes(k.w1);
    let mut b2 = u64_to_le_bytes(k.w2);
    let mut b3 = u64_to_le_bytes(k.w3);
    out.append(&mut b1);
    out.append(&mut b2);
    out.append(&mut b3);
    proof {
        assert(out@ =~= spec_key_bytes(*k));
    }
    out
}

/// Reads the identity held at `offset` in `data`.
pub fn read_key(data: &[u8], offset: usize) -> (r: KeyId)
    requires
        offset + 32 <= data@.len(),
    ensures
        r == spec_key_of(data@.subrange(offset as int, offset as int + 32)),
{
    let n: usize = data.len();
    proof {
        assert(offset + 32 <= n);
    }
    let w0 = u64_from_le_bytes(slice_subrange(data, offset, offset + 8));
    let w1 = u64_from_le_bytes(slice_subrange(data, offset + 8, offset + 16));
    let w2 = u64_from_le_bytes(slice_subrange(data, offset + 16, offset + 24));
    let w3 = u64_from_le_bytes(slice_subrange(data, offset + 24, offset + 32));
    proof {
        let s = data@.subrange(offset as int, offset as int + 32);
        assert(data@.subrange(offset as int, offset as int + 8) =~= s.subrange(0, 8));
        assert(data@.subrange(offset as int + 8, offset as int + 16) =~= s.subrange(8, 16));
        assert(data@.subrange(offset as int + 16, offset as int + 24) =~= s.subrange(16, 24));
        assert(data@.subrange(offset as int + 24, offset as int + 32) =~= s.subrange(24, 32));
    }
    KeyId { w0, w1, w2, w3 }
}

/// The byte that encodes a boolean.
pub open spec fn spec_bool_byte(b: bool) -> u8 {
    if b {
        1u8
    } else {
        0u8
    }
}

/// The boolean a byte encodes; bytes other than zero and one encode none.
pub open spec fn spec_byte_bool(x: u8) -> Option<bool> {
    if x == 0 {
        Some(false)
    } else if x == 1 {
        Some(true)
    } else {
        None
    }
}

/// The serialized form of an instance record: three identities, then the
/// initialization flag.
pub open spec fn spec_encode_instance(r: SolcloutInstance) -> Seq<u8> {
    spec_key_bytes(r.solclout_token) + spec_key_bytes(r.solclout_storage)
        + spec_key_bytes(r.token_program_id) + seq![spec_bool_byte(r.initialized)]
}

/// The instance record held at the front of an account buffer, if the
/// buffer is long enough and its flag byte encodes a boolean.
pub open spec fn spec_decode_instance(s: Seq<u8>) -> Option<SolcloutInstance> {
    if s.len() < 97 {
        None
    } else {
        match spec_byte_bool(s[96]) {
            Some(b) => Some(
                SolcloutInstance {
                    solclout_token: spec_key_of(s.subrange(0, 32)),
                    solclout_storage: spec_key_of(s.subrange(32, 64)),
                    token_program_id: spec_key_of(s.subrange(64, 96)),
                    initialized: b,
                },
            ),
            None => None,
        }
    }
}

/// Serializes an instance record.
pub fn encode_instance(r: &SolcloutInstance) -> (out: Vec<u8>)
    ensures
        out@ == spec_encode_instance(*r),
{
    let mut out = key_to_vec(&r.solclout_token);
    let mut b1 = key_to_vec(&r.solclout_storage);
    let mut b2 = key_to_vec(&r.token_program_id);
    out.append(&mut b1);
    out.append(&mut b2);
    if r.initialized {
        out.push(1u8);
    } else {
        out.push(0u8);
    }
    proof {
        assert(out@ =~= spec_encode_instance(*r));
    }
    out
}

/// Parses the instance record at the front of `data`.
pub fn decode_instance(data: &[u8]) -> (r: Option<SolcloutInstance>)
    ensures
        r == spec_decode_instance(data@),
{
    if data.len() < 97 {
        return None;
    }
    let flag: u8 = *slice_index_get(data, 96);
    let initialized: bool;
    if flag == 0 {
        initialized = false;
    } else if flag == 1 {
        initialized = true;
    } else {
        return None;
    }
    Some(
        SolcloutInstance {
            solclout_token: read_key(data, 0),
            solclout_storage: read_key(data, 32),
            token_program_id: read_key(data, 64),
            initialized,
        },
    )
}

/// An instance record, followed by any trailing buffer bytes, decodes back
/// to itself.
pub proof fn lemma_instance_round_trip(r: SolcloutInstance, tail: Seq<u8>)
    ensures
        spec_decode_instance(spec_encode_instance(r) + tail) == Some(r),
{
    lemma_key_round_trip(r.solclout_token);
    lemma_key_round_trip(r.solclout_storage);
    lemma_key_round_trip(r.token_program_id);
    let s = spec_encode_instance(r) + tail;
    assert(s[96] == spec_bool_byte(r.initialized));
    assert(s.subrange(0, 32) =~= spec_key_bytes(r.solclout_token));
    assert(s.subrange(32, 64) =~= spec_key_bytes(r.solclout_storage));
    assert(s.subrange(64, 96) =~= spec_key_bytes(r.token_program_id));
}

/// The serialized form of a creator record: three identities, the founder
/// reward percentage, the initialization flag, then the authority nonce.
pub open spec fn spec_encode_creator(r: SolcloutCreator) -> Seq<u8> {
    spec_key_bytes(r.creator_token) + spec_key_bytes(r.solclout_instance)
        + spec_key_bytes(r.founder_rewards_account)
        + spec_u16_to_le_bytes(r.founder_reward_percentage)
        + seq![spec_bool_byte(r.initialized), r.authority_nonce]
}

/// The creator record held at the front of an account buffer.
pub open spec fn spec_decode_creator(s: Seq<u8>) -> Option<SolcloutCreator> {
    if s.len() < 100 {
        None
    } else {
        match spec_byte_bool(s[98]) {
            Some(b) => Some(
                SolcloutCreator {
                    creator_token: spec_key_of(s.subrange(0, 32)),
                    solclout_instance: spec_key_of(s.subrange(32, 64)),
                    founder_rewards_account: spec_key_of(s.subrange(64, 96)),
                    founder_reward_percentage: spec_u16_from_le_bytes(s.subrange(96, 98)),
                    initialized: b,
                    authority_nonce: s[99],
                },
            ),
            None => None,
        }
    }
}

/// Serializes a creator record.
pub fn encode_creator(r: &SolcloutCreator) -> (out: Vec<u8>)
    ensures
        out@ == spec_encode_creator(*r),
{
    let mut out = key_to_vec(&r.creator_token);
    let mut b1 = key_to_vec(&r.solclout_instance);
    let mut b2 = key_to_vec(&r.founder_rewards_account);
    let mut b3 = u16_to_le_bytes(r.founder_reward_percentage);
    out.append(&mut b1);
    out.append(&mut b2);
    out.append(&mut b3);
    if r.initialized {
        out.push(1u8);
    } else {
        out.push(0u8);
    }
    out.push(r.authority_nonce);
    proof {
        assert(out@ =~= spec_encode_creator(*r));
    }
    out
}

/// Parses the creator record at the front of `data`.
pub fn decode_creator(data: &[u8]) -> (r: Option<SolcloutCreator>)
    ensures
        r == spec_decode_creator(data@),
{
    if data.len() < 100 {
        return None;
    }
    let flag: u8 = *slice_index_get(data, 98);
    let initialized: bool;
    if flag == 0 {
        initialized = false;
    } else if flag == 1 {
        initialized = true;
    } else {
        return None;
    }
    Some(
        SolcloutCreator {
            creator_token: read_key(data, 0),
            solclout_instance: read_key(data, 32),
            founder_rewards_account: read_key(data, 64),
            founder_reward_percentage: u16_from_le_bytes(slice_subrange(data, 96, 98)),
            initialized,
            authority_nonce: *slice_index_get(data, 99),
        },
    )
}

/// A creator record, followed by any trailing buffer bytes, decodes back to
/// itself.
pub proof fn lemma_creator_round_trip(r: SolcloutCreator, tail: Seq<u8>)
    ensures
        spec_decode_creator(spec_encode_creator(r) + tail) == Some(r),
{
    lemma_key_round_trip(r.creator_token);
    lemma_key_round_trip(r.solclout_instance);
    lemma_key_round_trip(r.founder_rewards_account);
    lemma_auto_spec_u16_to_from_le_bytes();
    let s = spec_encode_creator(r) + tail;
    assert(s[98] == spec_bool_byte(r.initialized));
    assert(s[99] == r.authority_nonce);
    assert(s.subrange(0, 32) =~= spec_key_bytes(r.creator_token));
    assert(s.subrange(32, 64) =~= spec_key_bytes(r.solclout_instance));
    assert(s.subrange(64, 96) =~= spec_key_bytes(r.founder_rewards_account));
    assert(s.subrange(96, 98) =~= spec_u16_to_le_bytes(r.founder_reward_percentage));
}

/// The wire form of an instruction: a one-byte tag in declaration order,
/// then the payload fields in order.
pub open spec fn spec_encode_instruction(i: SolcloutInstruction) -> Seq<u8> {
    match i {
        SolcloutInstruction::InitializeSolclout(a) => seq![0u8] + spec_key_bytes(
            a.token_program_id,
        ) + seq![a.nonce],
        SolcloutInstruction::InitializeCreator(a) => seq![1u8] + spec_u16_to_le_bytes(
            a.founder_reward_percentage,
        ) + seq![a.nonce],
        SolcloutInstruction::BuyCreatorCoins(a) => seq![2u8] + spec_u64_to_le_bytes(a.lamports),
        SolcloutInstruction::SellCreatorCoins(a) => seq![3u8] + spec_u64_to_le_bytes(a.lamports),
    }
}

/// The instruction a byte string encodes, if its tag is known and its
/// length matches that tag's payload exactly.
pub open spec fn spec_decode_instruction(s: Seq<u8>) -> Option<SolcloutInstruction> {
    if s.len() == 0 {
        None
    } else if s[0] == 0 {
        if s.len() == 34 {
            Some(
                SolcloutInstruction::InitializeSolclout(
                    InitializeSolcloutArgs {
                        token_program_id: spec_key_of(s.subrange(1, 33)),
                        nonce: s[33],
                    },
                ),
            )
        } else {
            None
        }
    } else if s[0] == 1 {
        if s.len() == 4 {
            Some(
                SolcloutInstruction::InitializeCreator(
                    InitializeCreatorArgs {
                        founder_reward_percentage: spec_u16_from_le_bytes(s.subrange(1, 3)),
                        nonce: s[3],
                    },
                ),
            )
        } else {
            None
        }
    } else if s[0] == 2 {
        if s.len() == 9 {
            Some(
                SolcloutInstruction::BuyCreatorCoins(
                    BuyCreatorCoinsArgs { lamports: spec_u64_from_le_bytes(s.subrange(1, 9)) },
                ),
            )
        } else {
            None
        }
    } else if s[0] == 3 {
        if s.len() == 9 {
            Some(
                SolcloutInstruction::SellCreatorCoins(
                    SellCreatorCoinsArgs { lamports: spec_u64_from_le_bytes(s.subrange(1, 9)) },
                ),
            )
        } else {
            None
        }
    } else {
        None
    }
}

/// Serializes an instruction into its wire form.
pub fn encode_instruction(i: &SolcloutInstruction) -> (out: Vec<u8>)
    ensures
        out@ == spec_encode_instruction(*i),
{
    let mut out: Vec<u8> = Vec::new();
    match i {
        SolcloutInstruction::InitializeSolclout(a) => {
            out.push(0u8);
            let mut b = key_to_vec(&a.token_program_id);
            out.append(&mut b);
            out.push(a.nonce);
        },
        SolcloutInstruction::InitializeCreator(a) => {
            out.push(1u8);
            let mut b = u16_to_le_bytes(a.founder_reward_percentage);
            out.append(&mut b);
            out.push(a.nonce);
        },
        SolcloutInstruction::BuyCreatorCoins(a) => {
            out.push(2u8);
            let mut b = u64_to_le_bytes(a.lamports);
            out.append(&mut b);
        },
        SolcloutInstruction::SellCreatorCoins(a) => {
            out.push(3u8);
            let mut b = u64_to_le_bytes(a.lamports);
            out.append(&mut b);
        },
    }
    proof {
        assert(out@ =~= spec_encode_instruction(*i));
    }
    out
}

/// Parses an instruction from its wire form.
pub fn decode_instruction(data: &[u8]) -> (r: Option<SolcloutInstruction>)
    ensures
        r == spec_decode_instruction(data@),
{
    if data.len() == 0 {
        return None;
    }
    let tag: u8 = *slice_index_get(data, 0);
    if tag == 0 {
        if data.len() != 34 {
            return None;
        }
        Some(
            SolcloutInstruction::InitializeSolclout(
                InitializeSolcloutArgs {
                    token_program_id: read_key(data, 1),
                    nonce: *slice_index_get(data, 33),
                },
            ),
        )
    } else if tag == 1 {
        if data.len() != 4 {
            return None;
        }
        Some(
            SolcloutInstruction::InitializeCreator(
                InitializeCreatorArgs {
                    founder_reward_percentage: u16_from_le_bytes(slice_subrange(data, 1, 3)),
                    nonce: *slice_index_get(data, 3),
                },
            ),
        )
    } else if tag == 2 {
        if data.len() != 9 {
            return None;
        }
        Some(
            SolcloutInstruction::BuyCreatorCoins(
                BuyCreatorCoinsArgs { lamports: u64_from_le_bytes(slice_subrange(data, 1, 9)) },
            ),
        )
    } else if tag == 3 {
        if data.len() != 9 {
            return None;
        }
        Some(
            SolcloutInstruction::SellCreatorCoins(
                SellCreatorCoinsArgs { lamports: u64_from_le_bytes(slice_subrange(data, 1, 9)) },
            ),
        )
    } else {
        None
    }
}

/// An instruction survives the round trip through its wire form.
pub proof fn lemma_instruction_round_trip(i: SolcloutInstruction)
    ensures
        spec_decode_instruction(spec_encode_instruction(i)) == Some(i),
{
    lemma_auto_spec_u64_to_from_le_bytes();
    lemma_auto_spec_u16_to_from_le_bytes();
    let s = spec_encode_instruction(i);
    match i {
        SolcloutInstruction::InitializeSolclout(a) => {
            lemma_key_round_trip(a.token_program_id);
            assert(s.subrange(1, 33) =~= spec_key_bytes(a.token_program_id));
        },
        SolcloutInstruction::InitializeCreator(a) => {
            assert(s.subrange(1, 3) =~= spec_u16_to_le_bytes(a.founder_reward_percentage));
        },
        SolcloutInstruction::BuyCreatorCoins(a) => {
            assert(s.subrange(1, 9) =~= spec_u64_to_le_bytes(a.lamports));
        },
        SolcloutInstruction::SellCreatorCoins(a) => {
            assert(s.subrange(1, 9) =~= spec_u64_to_le_bytes(a.lamports));
        },
    }
}

} // verus!
