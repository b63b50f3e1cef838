//! The instruction processor: a stateless state machine that validates the
//! accounts referenced by one instruction, derives the signing authorities
//! it needs, computes the bonding-curve price, and returns the balance
//! changes to apply — the host runtime performs the writes and the signed
//! calls into the token subsystem, all-or-nothing per transition.
use vstd::prelude::*;

use solana_program::program_pack::Pack;
use solana_program::program_option::COption;

use crate::codec::{
    decode_creator, decode_instance, decode_instruction, spec_decode_creator,
    spec_decode_instance, spec_decode_instruction,
};
use crate::error::SolcloutError;
use crate::instruction::SolcloutInstruction;
use crate::pricing::{price, price_in_range, spec_price};
use crate::state::{
    AccountV, AccountView, KeyId, SolcloutCreator, SolcloutInstance, TokenAccount, TokenMint,
};

verus! {

/// The signing identity that `authority_id` derives for a given owning
/// program, seed account and nonce; derivation fails (`None`) when the
/// tuple does not land on a valid derived address.
pub uninterp spec fn derived_authority(program_id: KeyId, source_id: KeyId, nonce: u8) -> Option<
    KeyId,
>;

/// Calculates the authority id by generating a program address.
///
/// Relies on `Pubkey::create_program_address` of `solana_program`: the
/// derived address is a deterministic function of the seeds (here the seed
/// account's 32 bytes and the nonce) and the owning program's identity
/// alone, and derivation fails exactly when the resulting point lies on
/// the ed25519 curve, so that no private key can exist for it.
#[verifier::external_body]
pub fn authority_id(program_id: &KeyId, source_id: &KeyId, nonce: u8) -> (r: Result<
    KeyId,
    SolcloutError,
>)
    ensures
        match r {
            Ok(k) => derived_authority(*program_id, *source_id, nonce) == Some(k),
            Err(e) => derived_authority(*program_id, *source_id, nonce) is None && e
                == SolcloutError::InvalidProgramAddress,
        },
{
    let program = solana_program::pubkey::Pubkey::try_from(
        crate::codec::key_to_vec(program_id).as_slice(),
    ).unwrap();
    let source = crate::codec::key_to_vec(source_id);
    match solana_program::pubkey::Pubkey::create_program_address(
        &[source.as_slice(), &[nonce]],
        &program,
    ) {
        Ok(k) => Ok(crate::codec::read_key(&k.to_bytes(), 0)),
        Err(_) => Err(SolcloutError::InvalidProgramAddress),
    }
}

/// What a token-subsystem account record's bytes parse to, if anything;
/// the parse is a function of the bytes alone.
pub uninterp spec fn spl_account_of(data: Seq<u8>) -> Option<TokenAccount>;

/// Relies on `Account::unpack` of `spl_token`: a deterministic parse of a
/// fixed-layout token-account record that fails on any buffer that is not
/// exactly one initialized record.
#[verifier::external_body]
fn spl_unpack_account(data: &Vec<u8>) -> (r: Option<TokenAccount>)
    ensures
        r == spl_account_of(data@),
{
    match spl_token::state::Account::unpack(data.as_slice()) {
        Ok(a) => Some(
            TokenAccount {
                mint: crate::codec::read_key(&a.mint.to_bytes(), 0),
                owner: crate::codec::read_key(&a.owner.to_bytes(), 0),
                amount: a.amount,
            },
        ),
        Err(_) => None,
    }
}

/// What a token-subsystem mint record's bytes parse to, if anything; the
/// parse is a function of the bytes alone.
pub uninterp spec fn spl_mint_of(data: Seq<u8>) -> Option<TokenMint>;

/// Relies on `Mint::unpack` of `spl_token`: a deterministic parse of a
/// fixed-layout mint record that fails on any buffer that is not exactly
/// one initialized record.
#[verifier::external_body]
fn spl_unpack_mint(data: &Vec<u8>) -> (r: Option<TokenMint>)
    ensures
        r == spl_mint_of(data@),
{
    match spl_token::state::Mint::unpack(data.as_slice()) {
        Ok(m) => {
            let ma = match m.mint_authority {
                COption::Some(k) => Some(crate::codec::read_key(&k.to_bytes(), 0)),
                COption::None => None,
            };
            let fa = match m.freeze_authority {
                COption::Some(k) => Some(crate::codec::read_key(&k.to_bytes(), 0)),
                COption::None => None,
            };
            Some(TokenMint { mint_authority: ma, freeze_authority: fa, supply: m.supply, decimals: m.decimals })
        },
        Err(_) => None,
    }
}

/// What `unpack_token_account` returns: the parsed record when the account
/// is owned by the expected token program and its bytes parse, the first
/// violated condition's error otherwise.
pub open spec fn spec_unpack_token_account(account: AccountV, token_program_id: KeyId) -> Result<
    TokenAccount,
    SolcloutError,
> {
    if account.owner != token_program_id {
        Err(SolcloutError::IncorrectTokenProgramId)
    } else {
        match spl_account_of(account.data) {
            Some(a) => Ok(a),
            None => Err(SolcloutError::ExpectedAccount),
        }
    }
}

/// Unpacks a token-subsystem account record, first checking that the
/// account really is owned by the expected token program.
pub fn unpack_token_account(account_info: &AccountView, token_program_id: &KeyId) -> (r: Result<
    TokenAccount,
    SolcloutError,
>)
    ensures
        r == spec_unpack_token_account(account_info@, *token_program_id),
{
    if !(account_info.owner == *token_program_id) {
        Err(SolcloutError::IncorrectTokenProgramId)
    } else {
        match spl_unpack_account(&account_info.data) {
            Some(a) => Ok(a),
            None => Err(SolcloutError::ExpectedAccount),
        }
    }
}

/// The `InitializeSolclout` transition: what it returns for every input,
/// in validation order — failed authority derivation, then the storage
/// account's owner and shape, then the storage account's controlling
/// authority, then the instance record's bytes, then its one-shot flag.
/// On success, the instance record to write.
pub open spec fn spec_initialize_solclout(
    program_id: KeyId,
    solclout: AccountV,
    solclout_storage_acc: AccountV,
    token_program_id: KeyId,
    nonce: u8,
) -> Result<SolcloutInstance, SolcloutError> {
    match derived_authority(program_id, solclout.key, nonce) {
        None => Err(SolcloutError::InvalidProgramAddress),
        Some(authority_key) => match spec_unpack_token_account(
            solclout_storage_acc,
            token_program_id,
        ) {
            Err(e) => Err(e),
            Ok(solclout_storage) => {
                if solclout_storage.owner != authority_key {
                    Err(SolcloutError::InvalidStorageOwner)
                } else {
                    match spec_decode_instance(solclout.data) {
                        None => Err(SolcloutError::DeserializeFailure),
                        Some(existing) => {
                            if existing.initialized {
                                Err(SolcloutError::AlreadyInitialized)
                            } else {
                                Ok(
                                    SolcloutInstance {
                                        solclout_token: solclout_storage.mint,
                                        solclout_storage: solclout_storage_acc.key,
                                        token_program_id: token_program_id,
                                        initialized: true,
                                    },
                                )
                            }
                        },
                    }
                }
            },
        },
    }
}

/// Validates and applies `InitializeSolclout`: on success the returned
/// instance record — trusting the supplied token program, custodying the
/// storage account, trading its mint — is to be written into the instance
/// account, completing the one-time initialization.
pub fn process_initialize_solclout(
    program_id: &KeyId,
    solclout: &AccountView,
    solclout_storage_acc: &AccountView,
    token_program_id: KeyId,
    nonce: u8,
) -> (r: Result<SolcloutInstance, SolcloutError>)
    ensures
        r == spec_initialize_solclout(
            *program_id,
            solclout@,
            solclout_storage_acc@,
            token_program_id,
            nonce,
        ),
{
    let authority_key = match authority_id(program_id, &solclout.key, nonce) {
        Ok(k) => k,
        Err(e) => {
            return Err(e);
        },
    };
    let solclout_storage = match unpack_token_account(solclout_storage_acc, &token_program_id) {
        Ok(a) => a,
        Err(e) => {
            return Err(e);
        },
    };
    if !(solclout_storage.owner == authority_key) {
        return Err(SolcloutError::InvalidStorageOwner);
    }
    let existing = match decode_instance(solclout.data.as_slice()) {
        Some(rec) => rec,
        None => {
            return Err(SolcloutError::DeserializeFailure);
        },
    };
    if existing.initialized {
        return Err(SolcloutError::AlreadyInitialized);
    }
    Ok(
        SolcloutInstance {
            solclout_token: solclout_storage.mint,
            solclout_storage: solclout_storage_acc.key,
            token_program_id: token_program_id,
            initialized: true,
        },
    )
}

/// The `InitializeCreator` transition: what it returns for every input, in
/// validation order — a zero founder reward percentage first (its divisor
/// `10000 / percentage` would be undefined), then the instance record's
/// bytes, the founder-rewards account's shape, authority derivation, the
/// instance record's owner, the mint's owner and shape and its two
/// authorities, the creator record's bytes and one-shot flag, the
/// founder-rewards account's owner and mint, and last the creator's
/// signature. On success, the creator record to write.
pub open spec fn spec_initialize_creator(
    program_id: KeyId,
    account: AccountV,
    solclout_instance_acc: AccountV,
    founder_rewards_account: AccountV,
    creator_mint: AccountV,
    founder_reward_percentage: u16,
    nonce: u8,
) -> Result<SolcloutCreator, SolcloutError> {
    if founder_reward_percentage == 0 {
        Err(SolcloutError::InvalidFounderRewardPercentage)
    } else {
        match spec_decode_instance(solclout_instance_acc.data) {
            None => Err(SolcloutError::DeserializeFailure),
            Some(solclout_instance_data) => match spl_account_of(founder_rewards_account.data) {
                None => Err(SolcloutError::InvalidAccountData),
                Some(founder_rewards_data) => match derived_authority(
                    program_id,
                    account.key,
                    nonce,
                ) {
                    None => Err(SolcloutError::InvalidProgramAddress),
                    Some(authority) => {
                        if solclout_instance_acc.owner != program_id {
                            Err(SolcloutError::InvalidSolcloutInstanceOwner)
                        } else if creator_mint.owner != solclout_instance_data.token_program_id {
                            Err(SolcloutError::AccountWrongTokenProgram)
                        } else {
                            match spl_mint_of(creator_mint.data) {
                                None => Err(SolcloutError::InvalidAccountData),
                                Some(creator_mint_data) => {
                                    if creator_mint_data.mint_authority != Some(authority) {
                                        Err(SolcloutError::InvalidMintAuthority)
                                    } else if creator_mint_data.freeze_authority != Some(
                                        authority,
                                    ) {
                                        Err(SolcloutError::InvalidFreezeAuthority)
                                    } else {
                                        match spec_decode_creator(account.data) {
                                            None => Err(SolcloutError::DeserializeFailure),
                                            Some(existing) => {
                                                if existing.initialized {
                                                    Err(SolcloutError::AlreadyInitialized)
                                                } else if founder_rewards_account.owner
                                                    != solclout_instance_data.token_program_id {
                                                    Err(SolcloutError::AccountWrongTokenProgram)
                                                } else if founder_rewards_data.mint
                                                    != creator_mint.key {
                                                    Err(
                                                        SolcloutError::InvalidFounderRewardsAccountType,
                                                    )
                                                } else if !account.is_signer {
                                                    Err(SolcloutError::MissingSigner)
                                                } else {
                                                    Ok(
                                                        SolcloutCreator {
                                                            creator_token: creator_mint.key,
                                                            solclout_instance:
                                                                solclout_instance_acc.key,
                                                            founder_rewards_account:
                                                                founder_rewards_account.key,
                                                            founder_reward_percentage,
                                                            initialized: true,
                                                            authority_nonce: nonce,
                                                        },
                                                    )
                                                }
                                            },
                                        }
                                    }
                                },
                            }
                        }
                    },
                },
            },
        }
    }
}

/// Validates and applies `InitializeCreator`: on success the returned
/// creator record — tied to the validated instance, mint and
/// founder-rewards account, and carrying the nonce that re-derives its
/// authority — is to be written into the creator account.
pub fn process_initialize_creator(
    program_id: &KeyId,
    account: &AccountView,
    solclout_instance_acc: &AccountView,
    founder_rewards_account: &AccountView,
    creator_mint: &AccountView,
    founder_reward_percentage: u16,
    nonce: u8,
) -> (r: Result<SolcloutCreator, SolcloutError>)
    ensures
        r == spec_initialize_creator(
            *program_id,
            account@,
            solclout_instance_acc@,
            founder_rewards_account@,
            creator_mint@,
            founder_reward_percentage,
            nonce,
        ),
{
    if founder_reward_percentage == 0 {
        return Err(SolcloutError::InvalidFounderRewardPercentage);
    }
    let solclout_instance_data = match decode_instance(solclout_instance_acc.data.as_slice()) {
        Some(rec) => rec,
        None => {
            return Err(SolcloutError::DeserializeFailure);
        },
    };
    let founder_rewards_data = match spl_unpack_account(&founder_rewards_account.data) {
        Some(a) => a,
        None => {
            return Err(SolcloutError::InvalidAccountData);
        },
    };
    let authority = match authority_id(program_id, &account.key, nonce) {
        Ok(k) => k,
        Err(e) => {
            return Err(e);
        },
    };
    if !(solclout_instance_acc.owner == *program_id) {
        return Err(SolcloutError::InvalidSolcloutInstanceOwner);
    }
    if !(creator_mint.owner == solclout_instance_data.token_program_id) {
        return Err(SolcloutError::AccountWrongTokenProgram);
    }
    let creator_mint_data = match spl_unpack_mint(&creator_mint.data) {
        Some(m) => m,
        None => {
            return Err(SolcloutError::InvalidAccountData);
        },
    };
    match creator_mint_data.mint_authority {
        Some(k) => {
            if !(k == authority) {
                return Err(SolcloutError::InvalidMintAuthority);
            }
        },
        None => {
            return Err(SolcloutError::InvalidMintAuthority);
        },
    }
    match creator_mint_data.freeze_authority {
        Some(k) => {
            if !(k == authority) {
                return Err(SolcloutError::InvalidFreezeAuthority);
            }
        },
        None => {
            return Err(SolcloutError::InvalidFreezeAuthority);
        },
    }
    let existing = match decode_creator(account.data.as_slice()) {
        Some(rec) => rec,
        None => {
            return Err(SolcloutError::DeserializeFailure);
        },
    };
    if existing.initialized {
        return Err(SolcloutError::AlreadyInitialized);
    }
    if !(founder_rewards_account.owner == solclout_instance_data.token_program_id) {
        return Err(SolcloutError::AccountWrongTokenProgram);
    }
    if !(founder_rewards_data.mint == creator_mint.key) {
        return Err(SolcloutError::InvalidFounderRewardsAccountType);
    }
    if !account.is_signer {
        return Err(SolcloutError::MissingSigner);
    }
    Ok(
        SolcloutCreator {
            creator_token: creator_mint.key,
            solclout_instance: solclout_instance_acc.key,
            founder_rewards_account: founder_rewards_account.key,
            founder_reward_percentage,
            initialized: true,
            authority_nonce: nonce,
        },
    )
}

/// A transfer the token subsystem is asked to perform: `amount` units move
/// from `source` to `destination` under `authority`'s signature.
#[derive(Clone, Copy, Debug, PartialEq, Eq, Structural)]
pub struct TokenTransfer {
    pub token_program: KeyId,
    pub source: KeyId,
    pub destination: KeyId,
    pub authority: KeyId,
    pub amount: u64,
}

/// A mint the token subsystem is asked to perform: `amount` fresh units of
/// `mint` are credited to `destination` under `authority`'s signature.
#[derive(Clone, Copy, Debug, PartialEq, Eq, Structural)]
pub struct TokenMintTo {
    pub token_program: KeyId,
    pub mint: KeyId,
    pub destination: KeyId,
    pub authority: KeyId,
    pub amount: u64,
}

/// The three balance changes of one purchase, to be performed as one
/// atomic unit, each signed with the authority re-derived from
/// `authority_seed` and `authority_nonce`: the cost moves into reserve
/// storage, the founder's cut and the purchaser's cut are minted.
#[derive(Clone, Copy, Debug, PartialEq, Eq, Structural)]
pub struct PurchaseEffect {
    pub reserve_transfer: TokenTransfer,
    pub founder_mint: TokenMintTo,
    pub purchaser_mint: TokenMintTo,
    pub authority_seed: KeyId,
    pub authority_nonce: u8,
}

/// The founder's share of a purchase whose bonding-curve cost is `cost`:
/// the cut is `10000 / percentage` of the cost, as an integer quotient.
pub open spec fn spec_founder_cut(cost: int, founder_reward_percentage: int) -> int {
    10000 * cost / founder_reward_percentage
}

/// The arithmetic domain of a purchase: whenever the referenced mint and
/// creator records parse, the cubic term must stay within 128-bit
/// precision, the founder percentage must be non-zero, and the founder's
/// cut must not exceed the purchased quantity. Outside this domain the
/// original fixed-width arithmetic has no value to agree with.
pub open spec fn buy_arith_ok(mint_data: Seq<u8>, creator_data: Seq<u8>, lamports: u64) -> bool {
    match (spl_mint_of(mint_data), spec_decode_creator(creator_data)) {
        (Some(m), Some(c)) => {
            &&& price_in_range(m.supply as int, lamports as int)
            &&& c.founder_reward_percentage != 0
            &&& spec_founder_cut(
                spec_price(m.supply as int, lamports as int),
                c.founder_reward_percentage as int,
            ) <= lamports
        },
        _ => true,
    }
}

/// The `BuyCreatorCoins` transition: what it returns for every input, in
/// validation order — the mint's shape, the instance and creator records'
/// bytes, authority derivation, then the mint identity, the creator's
/// instance, and both records' owners. On success, the three balance
/// changes of the purchase.
pub open spec fn spec_buy_creator_coins(
    program_id: KeyId,
    solclout_instance: AccountV,
    creator: AccountV,
    creator_mint: AccountV,
    purchaser: AccountV,
    destination: AccountV,
    lamports: u64,
) -> Result<PurchaseEffect, SolcloutError> {
    match spl_mint_of(creator_mint.data) {
        None => Err(SolcloutError::InvalidAccountData),
        Some(creator_mint_data) => match spec_decode_instance(solclout_instance.data) {
            None => Err(SolcloutError::DeserializeFailure),
            Some(solclout_instance_data) => match spec_decode_creator(creator.data) {
                None => Err(SolcloutError::DeserializeFailure),
                Some(creator_data) => match derived_authority(
                    program_id,
                    creator.key,
                    creator_data.authority_nonce,
                ) {
                    None => Err(SolcloutError::InvalidProgramAddress),
                    Some(authority) => {
                        if creator_data.creator_token != creator_mint.key {
                            Err(SolcloutError::InvalidCreatorMint)
                        } else if creator_data.solclout_instance != solclout_instance.key {
                            Err(SolcloutError::SolcloutInstanceMismatch)
                        } else if creator.owner != program_id {
                            Err(SolcloutError::InvalidCreatorOwner)
                        } else if solclout_instance.owner != program_id {
                            Err(SolcloutError::InvalidSolcloutInstanceOwner)
                        } else {
                            let cost = spec_price(creator_mint_data.supply as int, lamports as int);
                            let founder_cut = spec_founder_cut(
                                cost,
                                creator_data.founder_reward_percentage as int,
                            );
                            Ok(
                                PurchaseEffect {
                                    reserve_transfer: TokenTransfer {
                                        token_program: solclout_instance_data.token_program_id,
                                        source: purchaser.key,
                                        destination: solclout_instance_data.solclout_storage,
                                        authority: purchaser.key,
                                        amount: cost as u64,
                                    },
                                    founder_mint: TokenMintTo {
                                        token_program: solclout_instance_data.token_program_id,
                                        mint: creator_data.creator_token,
                                        destination: creator_data.founder_rewards_account,
                                        authority,
                                        amount: founder_cut as u64,
                                    },
                                    purchaser_mint: TokenMintTo {
                                        token_program: solclout_instance_data.token_program_id,
                                        mint: creator_data.creator_token,
                                        destination: destination.key,
                                        authority,
                                        amount: (lamports - founder_cut) as u64,
                                    },
                                    authority_seed: creator.key,
                                    authority_nonce: creator_data.authority_nonce,
                                },
                            )
                        }
                    },
                },
            },
        },
    }
}

/// Validates a purchase and computes its three balance changes: the
/// bonding-curve cost of `lamports` units at the mint's current supply
/// moves from the purchaser into reserve storage, the founder's cut of
/// that cost is minted to the founder-rewards account, and the remainder
/// of the purchased quantity is minted to the destination.
pub fn process_buy_creator_coins(
    program_id: &KeyId,
    solclout_instance: &AccountView,
    creator: &AccountView,
    creator_mint: &AccountView,
    purchaser: &AccountView,
    destination: &AccountView,
    lamports: u64,
) -> (r: Result<PurchaseEffect, SolcloutError>)
    requires
        buy_arith_ok(creator_mint@.data, creator@.data, lamports),
    ensures
        r == spec_buy_creator_coins(
            *program_id,
            solclout_instance@,
            creator@,
            creator_mint@,
            purchaser@,
            destination@,
            lamports,
        ),
{
    let creator_mint_data = match spl_unpack_mint(&creator_mint.data) {
        Some(m) => m,
        None => {
            return Err(SolcloutError::InvalidAccountData);
        },
    };
    let solclout_instance_data = match decode_instance(solclout_instance.data.as_slice()) {
        Some(rec) => rec,
        None => {
            return Err(SolcloutError::DeserializeFailure);
        },
    };
    let creator_data = match decode_creator(creator.data.as_slice()) {
        Some(rec) => rec,
        None => {
            return Err(SolcloutError::DeserializeFailure);
        },
    };
    let authority = match authority_id(program_id, &creator.key, creator_data.authority_nonce) {
        Ok(k) => k,
        Err(e) => {
            return Err(e);
        },
    };
    if !(creator_data.creator_token == creator_mint.key) {
        return Err(SolcloutError::InvalidCreatorMint);
    }
    if !(creator_data.solclout_instance == solclout_instance.key) {
        return Err(SolcloutError::SolcloutInstanceMismatch);
    }
    if !(creator.owner == *program_id) {
        return Err(SolcloutError::InvalidCreatorOwner);
    }
    if !(solclout_instance.owner == *program_id) {
        return Err(SolcloutError::InvalidSolcloutInstanceOwner);
    }
    let cost = price(creator_mint_data.supply, lamports);
    let founder_cut_wide: u128 = 10000u128 * (cost as u128) / (
    creator_data.founder_reward_percentage as u128);
    let founder_cut: u64 = founder_cut_wide as u64;
    let purchaser_cut: u64 = lamports - founder_cut;
    Ok(
        PurchaseEffect {
            reserve_transfer: TokenTransfer {
                token_program: solclout_instance_data.token_program_id,
                source: purchaser.key,
                destination: solclout_instance_data.solclout_storage,
                authority: purchaser.key,
                amount: cost,
            },
            founder_mint: TokenMintTo {
                token_program: solclout_instance_data.token_program_id,
                mint: creator_data.creator_token,
                destination: creator_data.founder_rewards_account,
                authority,
                amount: founder_cut,
            },
            purchaser_mint: TokenMintTo {
                token_program: solclout_instance_data.token_program_id,
                mint: creator_data.creator_token,
                destination: destination.key,
                authority,
                amount: purchaser_cut,
            },
            authority_seed: creator.key,
            authority_nonce: creator_data.authority_nonce,
        },
    )
}

/// What one accepted transition asks the host to do: write a freshly
/// initialized record, or perform the balance changes of a purchase.
#[derive(Clone, Copy, Debug, PartialEq, Eq, Structural)]
pub enum TransitionEffect {
    /// Write this instance record into the first referenced account.
    InstanceInitialized(SolcloutInstance),
    /// Write this creator record into the first referenced account.
    CreatorInitialized(SolcloutCreator),
    /// Perform these balance changes as one atomic unit.
    CoinsPurchased(PurchaseEffect),
}

/// The mathematical views of a run of host accounts.
pub open spec fn account_views(accounts: Seq<AccountView>) -> Seq<AccountV> {
    accounts.map_values(|a: AccountView| a@)
}

/// The whole processor as one function: decode, dispatch, validate,
/// compute. The sell transition decodes but has no defined behavior — its
/// economics are an open design gap — so its verdict here is left wholly
/// unspecified and the processor refuses to be called on it.
pub open spec fn spec_process_instruction(
    program_id: KeyId,
    accounts: Seq<AccountV>,
    input: Seq<u8>,
) -> Result<TransitionEffect, SolcloutError> {
    match spec_decode_instruction(input) {
        None => Err(SolcloutError::DeserializeFailure),
        Some(SolcloutInstruction::InitializeSolclout(args)) => {
            if accounts.len() < 2 {
                Err(SolcloutError::NotEnoughAccounts)
            } else {
                match spec_initialize_solclout(
                    program_id,
                    accounts[0],
                    accounts[1],
                    args.token_program_id,
                    args.nonce,
                ) {
                    Ok(rec) => Ok(TransitionEffect::InstanceInitialized(rec)),
                    Err(e) => Err(e),
                }
            }
        },
        Some(SolcloutInstruction::InitializeCreator(args)) => {
            if accounts.len() < 4 {
                Err(SolcloutError::NotEnoughAccounts)
            } else {
                match spec_initialize_creator(
                    program_id,
                    accounts[0],
                    accounts[1],
                    accounts[2],
                    accounts[3],
                    args.founder_reward_percentage,
                    args.nonce,
                ) {
                    Ok(rec) => Ok(TransitionEffect::CreatorInitialized(rec)),
                    Err(e) => Err(e),
                }
            }
        },
        Some(SolcloutInstruction::BuyCreatorCoins(args)) => {
            if accounts.len() < 5 {
                Err(SolcloutError::NotEnoughAccounts)
            } else {
                match spec_buy_creator_coins(
                    program_id,
                    accounts[0],
                    accounts[1],
                    accounts[2],
                    accounts[3],
                    accounts[4],
                    args.lamports,
                ) {
                    Ok(effect) => Ok(TransitionEffect::CoinsPurchased(effect)),
                    Err(e) => Err(e),
                }
            }
        },
        Some(SolcloutInstruction::SellCreatorCoins(_)) => vstd::pervasive::arbitrary(),
    }
}

/// The domain on which the processor may be invoked: not the unspecified
/// sell transition, and, for a purchase that will reach its computation,
/// the arithmetic domain of `buy_arith_ok`.
pub open spec fn spec_instruction_safe(accounts: Seq<AccountV>, input: Seq<u8>) -> bool {
    match spec_decode_instruction(input) {
        Some(SolcloutInstruction::SellCreatorCoins(_)) => false,
        Some(SolcloutInstruction::BuyCreatorCoins(args)) => accounts.len() < 5 || buy_arith_ok(
            accounts[2].data,
            accounts[1].data,
            args.lamports,
        ),
        _ => true,
    }
}

/// Decodes one instruction and applies its transition to the referenced
/// accounts, surfacing the first violated condition's error; the accounts
/// are consumed in the positional order each transition documents.
pub fn process_instruction(program_id: &KeyId, accounts: &Vec<AccountView>, input: &Vec<u8>) -> (r:
    Result<TransitionEffect, SolcloutError>)
    requires
        spec_instruction_safe(account_views(accounts@), input@),
    ensures
        r == spec_process_instruction(*program_id, account_views(accounts@), input@),
{
    let instruction = match decode_instruction(input.as_slice()) {
        Some(i) => i,
        None => {
            return Err(SolcloutError::DeserializeFailure);
        },
    };
    proof {
        assert forall|i: int| 0 <= i < accounts@.len() implies account_views(accounts@)[i]
            == accounts@[i]@ by {}
    }
    match instruction {
        SolcloutInstruction::InitializeSolclout(args) => {
            if accounts.len() < 2 {
                return Err(SolcloutError::NotEnoughAccounts);
            }
            match process_initialize_solclout(
                program_id,
                &accounts[0],
                &accounts[1],
                args.token_program_id,
                args.nonce,
            ) {
                Ok(rec) => Ok(TransitionEffect::InstanceInitialized(rec)),
                Err(e) => Err(e),
            }
        },
        SolcloutInstruction::InitializeCreator(args) => {
            if accounts.len() < 4 {
                return Err(SolcloutError::NotEnoughAccounts);
            }
            match process_initialize_creator(
                program_id,
                &accounts[0],
                &accounts[1],
                &accounts[2],
                &accounts[3],
                args.founder_reward_percentage,
                args.nonce,
            ) {
                Ok(rec) => Ok(TransitionEffect::CreatorInitialized(rec)),
                Err(e) => Err(e),
            }
        },
        SolcloutInstruction::BuyCreatorCoins(args) => {
            if accounts.len() < 5 {
                return Err(SolcloutError::NotEnoughAccounts);
            }
            match process_buy_creator_coins(
                program_id,
                &accounts[0],
                &accounts[1],
                &accounts[2],
                &accounts[3],
                &accounts[4],
                args.lamports,
            ) {
                Ok(effect) => Ok(TransitionEffect::CoinsPurchased(effect)),
                Err(e) => Err(e),
            }
        },
        SolcloutInstruction::SellCreatorCoins(_) => {
            proof {
                assert(false);
            }
            vstd::pervasive::unreached()
        },
    }
}

/// Entry point that refuses, rather than presumes away, the inputs the
/// processor cannot be invoked on: the unspecified sell transition, and a
/// purchase whose arithmetic would leave the original's fixed-width
/// domain. Returns `None` exactly on those inputs, and otherwise the
/// processor's verdict.
pub fn process_instruction_checked(
    program_id: &KeyId,
    accounts: &Vec<AccountView>,
    input: &Vec<u8>,
) -> (r: Option<Result<TransitionEffect, SolcloutError>>)
    ensures
        match r {
            Some(res) => spec_instruction_safe(account_views(accounts@), input@) && res
                == spec_process_instruction(*program_id, account_views(accounts@), input@),
            None => !spec_instruction_safe(account_views(accounts@), input@),
        },
{
    proof {
        assert forall|i: int| 0 <= i < accounts@.len() implies account_views(accounts@)[i]
            == accounts@[i]@ by {}
    }
    let args = match decode_instruction(input.as_slice()) {
        Some(SolcloutInstruction::SellCreatorCoins(_)) => {
            return None;
        },
        Some(SolcloutInstruction::BuyCreatorCoins(args)) => args,
        _ => {
            return Some(process_instruction(program_id, accounts, input));
        },
    };
    if accounts.len() < 5 {
        return Some(process_instruction(program_id, accounts, input));
    }
    let mint_parsed = spl_unpack_mint(&accounts[2].data);
    let creator_parsed = decode_creator(accounts[1].data.as_slice());
    let (m, c) = match (mint_parsed, creator_parsed) {
        (Some(m), Some(c)) => (m, c),
        _ => {
            return Some(process_instruction(program_id, accounts, input));
        },
    };
    let total: u128 = m.supply as u128 + args.lamports as u128;
    let ghost in_range = price_in_range(m.supply as int, args.lamports as int);
    let cube_ok: bool;
    match total.checked_mul(total) {
        None => {
            proof {
                let t = total as int;
                assert(t * t > u128::MAX);
                assert(t == 0 ==> t * t == 0) by (nonlinear_arith);
                assert(t * t * t >= t * t) by (nonlinear_arith)
                    requires 1 <= t,
                ;
                assert(!in_range);
            }
            cube_ok = false;
        },
        Some(squared) => {
            match squared.checked_mul(total) {
                None => {
                    proof {
                        let t = total as int;
                        assert(squared * total > u128::MAX);
                        assert(!in_range);
                    }
                    cube_ok = false;
                },
                Some(_) => {
                    proof {
                        assert(in_range);
                    }
                    cube_ok = true;
                },
            }
        },
    }
    if !cube_ok {
        proof {
            let views = account_views(accounts@);
            assert(spl_mint_of(views[2].data) == Some(m));
            assert(spec_decode_creator(views[1].data) == Some(c));
            assert(!buy_arith_ok(views[2].data, views[1].data, args.lamports));
        }
        return None;
    }
    if c.founder_reward_percentage == 0 {
        return None;
    }
    let cost = price(m.supply, args.lamports);
    let founder_cut_wide: u128 = 10000u128 * (cost as u128) / (
    c.founder_reward_percentage as u128);
    if founder_cut_wide > args.lamports as u128 {
        return None;
    }
    Some(process_instruction(program_id, accounts, input))
}

/// Authority derivation is deterministic: the derived identity is a
/// function of the owning program, the seed account and the nonce alone,
/// so any two derivations from equal inputs agree.
pub proof fn lemma_authority_deterministic(
    p1: KeyId,
    s1: KeyId,
    n1: u8,
    p2: KeyId,
    s2: KeyId,
    n2: u8,
)
    requires
        p1 == p2,
        s1 == s2,
        n1 == n2,
    ensures
        derived_authority(p1, s1, n1) == derived_authority(p2, s2, n2),
{
}

/// The founder's and the purchaser's minted shares of a purchase partition
/// the purchased quantity exactly: on the arithmetic domain, a successful
/// purchase mints `lamports` units in total.
pub proof fn lemma_purchase_splits_exactly(
    program_id: KeyId,
    solclout_instance: AccountV,
    creator: AccountV,
    creator_mint: AccountV,
    purchaser: AccountV,
    destination: AccountV,
    lamports: u64,
    effect: PurchaseEffect,
)
    requires
        buy_arith_ok(creator_mint.data, creator.data, lamports),
        spec_buy_creator_coins(
            program_id,
            solclout_instance,
            creator,
            creator_mint,
            purchaser,
            destination,
            lamports,
        ) == Ok::<PurchaseEffect, SolcloutError>(effect),
    ensures
        effect.founder_mint.amount + effect.purchaser_mint.amount == lamports,
{
    let m = spl_mint_of(creator_mint.data).unwrap();
    let c = spec_decode_creator(creator.data).unwrap();
    let s = m.supply as int;
    let q = lamports as int;
    let cost = spec_price(s, q);
    assert(crate::pricing::cube(s) <= crate::pricing::cube(s + q)) by (nonlinear_arith)
        requires 0 <= s, 0 <= q,
    ;
    vstd::arithmetic::div_mod::lemma_div_of0(crate::pricing::PRICE_DENOMINATOR as int);
    vstd::arithmetic::div_mod::lemma_div_is_ordered(
        0,
        crate::pricing::cube(s + q) - crate::pricing::cube(s),
        crate::pricing::PRICE_DENOMINATOR as int,
    );
    vstd::arithmetic::div_mod::lemma_div_is_ordered(
        0,
        10000 * cost,
        c.founder_reward_percentage as int,
    );
}

/// Initializing an instance is not idempotent: a second `InitializeSolclout`
/// against the account now holding the record a successful first one wrote
/// — whatever trailing bytes the account buffer keeps — is rejected as
/// `AlreadyInitialized`.
pub proof fn lemma_initialize_solclout_not_idempotent(
    program_id: KeyId,
    solclout: AccountV,
    solclout_storage_acc: AccountV,
    token_program_id: KeyId,
    nonce: u8,
    rec: SolcloutInstance,
    tail: Seq<u8>,
)
    requires
        spec_initialize_solclout(
            program_id,
            solclout,
            solclout_storage_acc,
            token_program_id,
            nonce,
        ) == Ok::<SolcloutInstance, SolcloutError>(rec),
    ensures
        spec_initialize_solclout(
            program_id,
            (AccountV { data: crate::codec::spec_encode_instance(rec) + tail, ..solclout }),
            solclout_storage_acc,
            token_program_id,
            nonce,
        ) == Err::<SolcloutInstance, SolcloutError>(SolcloutError::AlreadyInitialized),
{
    crate::codec::lemma_instance_round_trip(rec, tail);
}

/// The instance's one-shot flag is monotone: a successful initialization
/// reads a record whose flag is still false and writes one whose flag is
/// true, and no other transition writes the record at all.
pub proof fn lemma_instance_initialization_monotone(
    program_id: KeyId,
    solclout: AccountV,
    solclout_storage_acc: AccountV,
    token_program_id: KeyId,
    nonce: u8,
    rec: SolcloutInstance,
)
    requires
        spec_initialize_solclout(
            program_id,
            solclout,
            solclout_storage_acc,
            token_program_id,
            nonce,
        ) == Ok::<SolcloutInstance, SolcloutError>(rec),
    ensures
        spec_decode_instance(solclout.data) is Some,
        !spec_decode_instance(solclout.data).unwrap().initialized,
        rec.initialized,
{
}

/// The creator's one-shot flag is monotone in the same way.
pub proof fn lemma_creator_initialization_monotone(
    program_id: KeyId,
    account: AccountV,
    solclout_instance_acc: AccountV,
    founder_rewards_account: AccountV,
    creator_mint: AccountV,
    founder_reward_percentage: u16,
    nonce: u8,
    rec: SolcloutCreator,
)
    requires
        spec_initialize_creator(
            program_id,
            account,
            solclout_instance_acc,
            founder_rewards_account,
            creator_mint,
            founder_reward_percentage,
            nonce,
        ) == Ok::<SolcloutCreator, SolcloutError>(rec),
    ensures
        spec_decode_creator(account.data) is Some,
        !spec_decode_creator(account.data).unwrap().initialized,
        rec.initialized,
{
}

/// A purchase whose supplied mint account is any parseable account other
/// than the creator record's mint is rejected as `InvalidCreatorMint`,
/// even when every other account is valid enough for the purchase to
/// succeed.
pub proof fn lemma_buy_rejects_wrong_mint(
    program_id: KeyId,
    solclout_instance: AccountV,
    creator: AccountV,
    creator_mint: AccountV,
    purchaser: AccountV,
    destination: AccountV,
    lamports: u64,
    effect: PurchaseEffect,
    other_mint: AccountV,
)
    requires
        spec_buy_creator_coins(
            program_id,
            solclout_instance,
            creator,
            creator_mint,
            purchaser,
            destination,
            lamports,
        ) == Ok::<PurchaseEffect, SolcloutError>(effect),
        spl_mint_of(other_mint.data) is Some,
        other_mint.key != spec_decode_creator(creator.data).unwrap().creator_token,
    ensures
        spec_buy_creator_coins(
            program_id,
            solclout_instance,
            creator,
            other_mint,
            purchaser,
            destination,
            lamports,
        ) == Err::<PurchaseEffect, SolcloutError>(SolcloutError::InvalidCreatorMint),
{
}

/// Initializing a creator demands the creator account's signature: on
/// inputs that would succeed with the signature present, the same call
/// without it is rejected as `MissingSigner`, whatever the rest of the
/// data says.
pub proof fn lemma_initialize_creator_requires_signer(
    program_id: KeyId,
    account: AccountV,
    solclout_instance_acc: AccountV,
    founder_rewards_account: AccountV,
    creator_mint: AccountV,
    founder_reward_percentage: u16,
    nonce: u8,
    rec: SolcloutCreator,
)
    requires
        spec_initialize_creator(
            program_id,
            (AccountV { is_signer: true, ..account }),
            solclout_instance_acc,
            founder_rewards_account,
            creator_mint,
            founder_reward_percentage,
            nonce,
        ) == Ok::<SolcloutCreator, SolcloutError>(rec),
        !account.is_signer,
    ensures
        spec_initialize_creator(
            program_id,
            account,
            solclout_instance_acc,
            founder_rewards_account,
            creator_mint,
            founder_reward_percentage,
            nonce,
        ) == Err::<SolcloutCreator, SolcloutError>(SolcloutError::MissingSigner),
{
}

} // verus!
