use vstd::prelude::*;

use crate::key::Pubkey;

verus! {

/// Maximum number of distributions that can be registered to a collection.
pub const MAX_DISTRIBUTIONS: usize = 20;

/// Number of bytes in the hash of a collection's terms of service.
pub const TERMS_HASH_LEN: usize = 32;

/// Tracks configuration and state for token collection.
/// Holds deposited tokens and manages distribution eligibility.
#[derive(Clone, Copy, Debug)]
pub struct Collection {
    pub authority: Pubkey,
    /// sum of tokens ever collected (including previously withdrawn!)
    pub lifetime_tokens_collected: u64,
    /// maximum amount of tokens depositable, used for reward share computation
    pub max_collectable_tokens: u64,
    pub mint: Pubkey,
    pub vault: Pubkey,
    pub replacement_mint: Pubkey,
    pub bump: u8,
    pub counter: u64,
    /// whether to burn input tokens instead of collecting them
    pub burn_on_deposit: bool,
    /// whether withdraw_from_collection burns instead of withdrawing
    pub burn_instead_of_withdraw: bool,
    /// hash of the terms of service that committing users agree to
    pub terms_hash: [u8; TERMS_HASH_LEN],
    /// number of registered distributions
    pub num_distributions: u8,
    /// registered distribution addresses (up to MAX_DISTRIBUTIONS)
    pub distributions: [Pubkey; MAX_DISTRIBUTIONS],
}

impl Collection {
    /// The registry never claims more entries than it has slots.
    pub open spec fn wf(self) -> bool {
        self.num_distributions <= MAX_DISTRIBUTIONS
    }

    /// The addresses of the registered distributions, in registration order.
    pub open spec fn registered(self) -> Seq<Pubkey> {
        self.distributions@.take(self.num_distributions as int)
    }
}

/// Manages token distribution to collection participants.
/// Tracks deposited tokens and handles proportional distribution based on user deposits.
#[derive(Clone, Copy, Debug)]
pub struct Distribution {
    pub collection: Pubkey,
    /// total tokens ever deposited into this distribution
    pub lifetime_deposited_tokens: u64,
    pub mint: Pubkey,
    pub vault: Pubkey,
    /// amount of tokens handed out to users
    pub distributed_tokens: u64,
    pub bump: u8,
}

/// The program's own error codes.
#[derive(Clone, Copy, Debug, PartialEq, Eq, Structural)]
pub enum ErrorCode {
    /// Arithmetic overflow in calculation
    Overflow,
    /// Tokens for the collection exceed configured maximum
    MaxCollectableTokensExceeded,
    /// Maximum collectable tokens must be greater than zero
    InvalidMaxCollectableTokens,
    /// Remaining accounts must be provided in groups of 3 (distribution, vault, user_token_account)
    InvalidRemainingAccounts,
    /// Distribution does not belong to the specified collection
    DistributionCollectionMismatch,
    /// Distribution vault does not match distribution account
    InvalidDistributionVault,
    /// Distribution account has invalid owner
    InvalidDistributionOwner,
    /// Maximum number of distributions exceeded
    MaxDistributionsExceeded,
    /// Must provide all registered distributions in the correct order
    DistributionsMismatch,
    /// Replacement mint must have zero supply
    ReplacementMintHasSupply,
    /// Replacement mint authority must be the collection authority
    ReplacementMintAuthorityMismatch,
    /// Replacement mint must have freeze authority disabled
    ReplacementMintHasFreezeAuthority,
    /// Replacement mint decimals must match the collected mint
    ReplacementMintDecimalsMismatch,
    /// The terms hash given on commit differs from the collection's
    TermsHashMismatch,
}

/// Why an instruction is refused.
#[derive(Clone, Copy, Debug, PartialEq, Eq, Structural)]
pub enum Error {
    /// One of the program's own error codes.
    Program(ErrorCode),
    /// An account is not the one that the collection or distribution records.
    ConstraintAddress,
    /// A token account holds tokens of another mint than the one required.
    ConstraintTokenMint,
    /// A distribution account's data could not be read as a distribution.
    AccountData(DecodeError),
}

/// Why an account's data does not read as a distribution.
#[derive(Clone, Copy, Debug, PartialEq, Eq, Structural)]
pub enum DecodeError {
    /// The data is shorter than an account discriminator.
    AccountDiscriminatorNotFound,
    /// The data begins with another account type's discriminator.
    AccountDiscriminatorMismatch,
    /// The data after the discriminator is not a distribution.
    AccountDidNotDeserialize,
}

} // verus!
