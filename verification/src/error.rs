//! Error kinds surfaced by the instruction processor. Every validation
//! failure aborts the whole transition and reports exactly one of these.
use vstd::prelude::*;

verus! {

/// One distinct kind per violated condition; a rejected transition surfaces
/// the kind of the first condition that failed, in validation order.
#[derive(Clone, Copy, Debug, PartialEq, Eq, Structural)]
pub enum SolcloutError {
    /// A token account's owning program is not the expected token program.
    IncorrectTokenProgramId,
    /// Bytes presented as a token account do not parse as one.
    ExpectedAccount,
    /// The (program, seed, nonce) tuple does not land on a valid derived address.
    InvalidProgramAddress,
    /// The reserve-storage account's controlling authority is not the derived authority.
    InvalidStorageOwner,
    /// The record was already initialized by an earlier transition.
    AlreadyInitialized,
    /// The instance record is not owned by this program.
    InvalidSolcloutInstanceOwner,
    /// An account is owned by the wrong token program.
    AccountWrongTokenProgram,
    /// The mint's mint authority is not the creator's derived authority.
    InvalidMintAuthority,
    /// The mint's freeze authority is not the creator's derived authority.
    InvalidFreezeAuthority,
    /// The founder-rewards account is not an account of the creator's mint.
    InvalidFounderRewardsAccountType,
    /// The creator account did not sign the transaction.
    MissingSigner,
    /// The supplied mint is not the creator record's mint.
    InvalidCreatorMint,
    /// The creator record does not belong to the supplied instance.
    SolcloutInstanceMismatch,
    /// The creator record is not owned by this program.
    InvalidCreatorOwner,
    /// A founder reward percentage of zero would make the founder-cut divisor undefined.
    InvalidFounderRewardPercentage,
    /// Bytes presented as a mint or token record do not parse as one.
    InvalidAccountData,
    /// Instruction or record bytes do not decode to the declared layout.
    DeserializeFailure,
    /// The instruction referenced more accounts than were supplied.
    NotEnoughAccounts,
}

} // verus!
