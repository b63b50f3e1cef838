//! The typed instruction set: a tagged union dispatched by the processor,
//! with one payload struct per transition. The wire encoding lives in
//! `codec`.
use vstd::prelude::*;

use crate::state::KeyId;

verus! {

/// Payload of `InitializeSolclout`.
#[derive(Clone, Copy, Debug, PartialEq, Eq, Structural)]
pub struct InitializeSolcloutArgs {
    /// The token subsystem the new instance will trust.
    pub token_program_id: KeyId,
    /// Nonce used to derive the instance's signing authority.
    pub nonce: u8,
}

/// Payload of `InitializeCreator`.
#[derive(Clone, Copy, Debug, PartialEq, Eq, Structural)]
pub struct InitializeCreatorArgs {
    /// Divisor base of the founder's cut of every purchase: the cut is
    /// `10000 / percentage` of the purchase cost.
    pub founder_reward_percentage: u16,
    /// Nonce used to derive the creator's signing authority.
    pub nonce: u8,
}

/// Payload of `BuyCreatorCoins`.
#[derive(Clone, Copy, Debug, PartialEq, Eq, Structural)]
pub struct BuyCreatorCoinsArgs {
    /// Quantity of creator tokens to purchase, in the reserve asset's
    /// smallest-denomination scale.
    pub lamports: u64,
}

/// Payload of `SellCreatorCoins`.
#[derive(Clone, Copy, Debug, PartialEq, Eq, Structural)]
pub struct SellCreatorCoinsArgs {
    /// Quantity of creator tokens to sell, in the reserve asset's
    /// smallest-denomination scale.
    pub lamports: u64,
}

/// The instructions the processor dispatches on.
#[derive(Clone, Copy, Debug, PartialEq, Eq, Structural)]
pub enum SolcloutInstruction {
    /// Initialize an exchange instance. Accounts, in order: the instance
    /// record to create; the reserve-storage token account, whose
    /// controlling authority must be the instance's derived authority.
    InitializeSolclout(InitializeSolcloutArgs),
    /// Initialize a creator. Accounts, in order: the creator record to
    /// create (a transaction signer); the instance; the founder-rewards
    /// token account; the creator token mint, whose mint and freeze
    /// authorities must be the creator's derived authority.
    InitializeCreator(InitializeCreatorArgs),
    /// Buy creator coins. Accounts, in order: the instance; the creator;
    /// the creator token mint; the purchaser's token account; the
    /// destination token account.
    BuyCreatorCoins(BuyCreatorCoinsArgs),
    /// Sell creator coins. Declared in the wire format; its economic
    /// behavior is an open design gap and the processor does not accept it.
    SellCreatorCoins(SellCreatorCoinsArgs),
}

} // verus!
