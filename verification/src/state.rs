//! Account record schemas: the exchange-wide `SolcloutInstance`
//! configuration, the per-creator `SolcloutCreator` configuration, and the
//! plain-value views of the host runtime's accounts and of the token
//! subsystem's records that the processor reads.
use vstd::prelude::*;

verus! {

/// A 32-byte account identity, held as four 64-bit words; word `w0` covers
/// the first eight bytes of the identity in little-endian order, and so on.
#[derive(Clone, Copy, Debug, PartialEq, Eq, Structural)]
pub struct KeyId {
    pub w0: u64,
    pub w1: u64,
    pub w2: u64,
    pub w3: u64,
}

/// One deployment of the exchange: the reserve token it trades in, the
/// account that custodies paid-in reserve funds, and the token subsystem it
/// trusts. Written once by `InitializeSolclout` and read-only afterwards.
#[derive(Clone, Copy, Debug, PartialEq, Eq, Structural)]
pub struct SolcloutInstance {
    /// Mint of the reserve token purchasers pay in.
    pub solclout_token: KeyId,
    /// Account holding the reserve funds paid in by purchasers.
    pub solclout_storage: KeyId,
    /// The token subsystem this deployment trusts.
    pub token_program_id: KeyId,
    /// Set once by initialization, never reset.
    pub initialized: bool,
}

/// One creator's bonding-curve token configuration. Written once by
/// `InitializeCreator` and read-only afterwards.
#[derive(Clone, Copy, Debug, PartialEq, Eq, Structural)]
pub struct SolcloutCreator {
    /// Mint of this creator's token.
    pub creator_token: KeyId,
    /// The instance this creator was validated against.
    pub solclout_instance: KeyId,
    /// Destination of the founder's cut of every purchase.
    pub founder_rewards_account: KeyId,
    /// Divisor base of the founder's cut: the cut is `10000 / percentage`
    /// of the cost; zero is rejected at initialization.
    pub founder_reward_percentage: u16,
    /// Set once by initialization, never reset.
    pub initialized: bool,
    /// Nonce that re-derives this creator's signing authority.
    pub authority_nonce: u8,
}

/// Size in bytes reserved for a serialized `SolcloutInstance` record.
pub const SOLCLOUT_INSTANCE_LEN: usize = 32 * 3 + 2 + 1;

/// Size in bytes reserved for a serialized `SolcloutCreator` record.
pub const SOLCLOUT_CREATOR_LEN: usize = 32 * 3 + 2 + 1 + 1;

/// What the processor reads of one account supplied by the host runtime:
/// its identity, its owning program, whether it signed the transaction,
/// and its raw record bytes.
pub struct AccountView {
    pub key: KeyId,
    pub owner: KeyId,
    pub is_signer: bool,
    pub data: Vec<u8>,
}

/// The mathematical view of an `AccountView`: the same fields with the
/// record bytes as a sequence.
pub struct AccountV {
    pub key: KeyId,
    pub owner: KeyId,
    pub is_signer: bool,
    pub data: Seq<u8>,
}

impl View for AccountView {
    type V = AccountV;

    open spec fn view(&self) -> AccountV {
        AccountV {
            key: self.key,
            owner: self.owner,
            is_signer: self.is_signer,
            data: self.data@,
        }
    }
}

/// The fields the processor reads of a token-subsystem account record:
/// which mint it holds, its controlling authority, and its balance.
#[derive(Clone, Copy, Debug, PartialEq, Eq, Structural)]
pub struct TokenAccount {
    pub mint: KeyId,
    pub owner: KeyId,
    pub amount: u64,
}

/// The fields the processor reads of a token-subsystem mint record.
#[derive(Clone, Copy, Debug)]
pub struct TokenMint {
    /// Authority allowed to mint new tokens, if any.
    pub mint_authority: Option<KeyId>,
    /// Authority allowed to freeze token accounts, if any.
    pub freeze_authority: Option<KeyId>,
    /// Outstanding token quantity, in smallest-denomination units.
    pub supply: u64,
    /// Base-10 digits to the right of the decimal place.
    pub decimals: u8,
}

} // verus!
