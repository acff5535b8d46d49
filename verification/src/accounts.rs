use vstd::prelude::*;

use crate::key::Pubkey;
use crate::state::{Collection, Distribution, Error, ErrorCode};

verus! {

/// What the program reads of a token mint.
#[derive(Clone, Copy, Debug)]
pub struct MintAccount {
    pub key: Pubkey,
    pub supply: u64,
    pub decimals: u8,
    pub mint_authority: Option<Pubkey>,
    pub freeze_authority: Option<Pubkey>,
}

/// What the program reads of a token account.
#[derive(Clone, Copy, Debug)]
pub struct TokenAccount {
    pub key: Pubkey,
    pub mint: Pubkey,
    pub amount: u64,
}

/// The accounts of `init_collection`.
#[derive(Clone, Copy, Debug)]
pub struct InitCollection {
    /// The collection account that is created to hold configuration and state
    pub collection: Pubkey,
    /// The bump of the collection's derived address
    pub collection_bump: u8,
    /// The token mint for tokens being collected
    pub mint: MintAccount,
    /// Associated token account owned by the collection that holds deposited tokens
    pub vault: Pubkey,
    /// Pre-created replacement mint; its mint authority will be taken over
    pub replacement_mint: MintAccount,
    /// The authority who can manage this collection and pays for these accounts
    pub authority: Pubkey,
}

impl InitCollection {
    /// The first rule on the replacement mint that the accounts break, if any.
    pub open spec fn constraint_error(self) -> Option<Error> {
        if self.replacement_mint.supply != 0 {
            Some(Error::Program(ErrorCode::ReplacementMintHasSupply))
        } else if !(self.replacement_mint.mint_authority matches Some(a) && a == self.authority) {
            Some(Error::Program(ErrorCode::ReplacementMintAuthorityMismatch))
        } else if self.replacement_mint.freeze_authority is Some {
            Some(Error::Program(ErrorCode::ReplacementMintHasFreezeAuthority))
        } else if self.replacement_mint.decimals != self.mint.decimals {
            Some(Error::Program(ErrorCode::ReplacementMintDecimalsMismatch))
        } else {
            None
        }
    }

    /// Checks the rules on the replacement mint.
    pub fn check_constraints(&self) -> (r: Result<(), Error>)
        ensures
            r == match self.constraint_error() {
                Some(e) => Err(e),
                None => Ok(()),
            },
    {
        if self.replacement_mint.supply != 0 {
            return Err(Error::Program(ErrorCode::ReplacementMintHasSupply));
        }
        let authority_matches = match &self.replacement_mint.mint_authority {
            Some(a) => a.equals(&self.authority),
            None => false,
        };
        if !authority_matches {
            return Err(Error::Program(ErrorCode::ReplacementMintAuthorityMismatch));
        }
        if self.replacement_mint.freeze_authority.is_some() {
            return Err(Error::Program(ErrorCode::ReplacementMintHasFreezeAuthority));
        }
        if self.replacement_mint.decimals != self.mint.decimals {
            return Err(Error::Program(ErrorCode::ReplacementMintDecimalsMismatch));
        }
        Ok(())
    }
}

/// The accounts of `withdraw_from_collection`.
#[derive(Clone, Copy, Debug)]
pub struct WithdrawFromCollection {
    /// The address of the collection to withdraw from
    pub collection_key: Pubkey,
    /// The collection to withdraw from
    pub collection: Collection,
    /// The collected mint (required for burning if burn_instead_of_withdraw is set)
    pub mint: Pubkey,
    /// The collection's vault, holding the tokens to withdraw
    pub vault: TokenAccount,
    /// The token account to receive the withdrawn tokens (unused if burning)
    pub authority_token_account: TokenAccount,
    /// The authority of the collection
    pub authority: Pubkey,
}

impl WithdrawFromCollection {
    /// The first account rule that the accounts break, if any.
    pub open spec fn constraint_error(self) -> Option<Error> {
        if self.mint != self.collection.mint {
            Some(Error::ConstraintAddress)
        } else if self.vault.key != self.collection.vault {
            Some(Error::ConstraintAddress)
        } else if self.authority_token_account.mint != self.mint {
            Some(Error::ConstraintTokenMint)
        } else if self.authority != self.collection.authority {
            Some(Error::ConstraintAddress)
        } else {
            None
        }
    }

    /// Checks the account rules.
    pub fn check_constraints(&self) -> (r: Result<(), Error>)
        ensures
            r == match self.constraint_error() {
                Some(e) => Err(e),
                None => Ok(()),
            },
    {
        if !self.mint.equals(&self.collection.mint) {
            return Err(Error::ConstraintAddress);
        }
        if !self.vault.key.equals(&self.collection.vault) {
            return Err(Error::ConstraintAddress);
        }
        if !self.authority_token_account.mint.equals(&self.mint) {
            return Err(Error::ConstraintTokenMint);
        }
        if !self.authority.equals(&self.collection.authority) {
            return Err(Error::ConstraintAddress);
        }
        Ok(())
    }
}

/// The accounts of `init_distribution`.
#[derive(Clone, Copy, Debug)]
pub struct InitDistribution {
    /// The created distribution account that manages token distribution
    pub distribution: Pubkey,
    /// The bump of the distribution's derived address
    pub distribution_bump: u8,
    /// The address of the collection this distribution is associated with
    pub collection_key: Pubkey,
    /// The collection this distribution is associated with
    pub collection: Collection,
    /// The mint of the tokens being distributed
    pub mint: Pubkey,
    /// Associated token account owned by the distribution that holds tokens to distribute
    pub vault: Pubkey,
    /// The collection's authority and payer for the distribution accounts
    pub authority: Pubkey,
}

impl InitDistribution {
    /// The first account rule that the accounts break, if any.
    pub open spec fn constraint_error(self) -> Option<Error> {
        if self.authority != self.collection.authority {
            Some(Error::ConstraintAddress)
        } else {
            None
        }
    }

    /// Checks the account rules.
    pub fn check_constraints(&self) -> (r: Result<(), Error>)
        ensures
            r == match self.constraint_error() {
                Some(e) => Err(e),
                None => Ok(()),
            },
    {
        if !self.authority.equals(&self.collection.authority) {
            return Err(Error::ConstraintAddress);
        }
        Ok(())
    }
}

/// The accounts of `add_distribution_tokens`.
/// Anyone can add tokens: the depositor need not be the collection authority.
#[derive(Clone, Copy, Debug)]
pub struct AddDistributionTokens {
    /// The address of the distribution to add tokens to
    pub distribution_key: Pubkey,
    /// The distribution to add tokens to
    pub distribution: Distribution,
    /// The distribution's vault to receive the tokens
    pub vault: TokenAccount,
    /// The token account providing the tokens to distribute
    pub depositor_token_account: TokenAccount,
    /// The signer who owns the token account providing the tokens
    pub depositor: Pubkey,
}

impl AddDistributionTokens {
    /// The first account rule that the accounts break, if any.
    pub open spec fn constraint_error(self) -> Option<Error> {
        if self.vault.key != self.distribution.vault {
            Some(Error::ConstraintAddress)
        } else if self.depositor_token_account.mint != self.vault.mint {
            Some(Error::ConstraintTokenMint)
        } else {
            None
        }
    }

    /// Checks the account rules.
    pub fn check_constraints(&self) -> (r: Result<(), Error>)
        ensures
            r == match self.constraint_error() {
                Some(e) => Err(e),
                None => Ok(()),
            },
    {
        if !self.vault.key.equals(&self.distribution.vault) {
            return Err(Error::ConstraintAddress);
        }
        if !self.depositor_token_account.mint.equals(&self.vault.mint) {
            return Err(Error::ConstraintTokenMint);
        }
        Ok(())
    }
}

/// The accounts of `user_commit_and_claim_stateless`.
#[derive(Clone, Copy, Debug)]
pub struct UserCommitAndClaimStateless {
    /// The address of the collection to commit tokens to
    pub collection_key: Pubkey,
    /// The collection to commit tokens to
    pub collection: Collection,
    /// The mint of the tokens being collected
    pub mint: Pubkey,
    /// The token account providing the tokens to deposit
    pub user_token_account: TokenAccount,
    /// The collection's vault to receive the deposited tokens (if not burning)
    pub vault: Pubkey,
    /// The replacement mint owned by the collection
    pub replacement_mint: Pubkey,
    /// The user's token account to receive replacement tokens
    pub user_replacement_token_account: Pubkey,
    /// The user committing tokens
    pub user: Pubkey,
}

impl UserCommitAndClaimStateless {
    /// The first account rule that the accounts break, if any.
    pub open spec fn constraint_error(self) -> Option<Error> {
        if self.mint != self.collection.mint {
            Some(Error::ConstraintAddress)
        } else if self.user_token_account.mint != self.mint {
            Some(Error::ConstraintTokenMint)
        } else if self.vault != self.collection.vault {
            Some(Error::ConstraintAddress)
        } else if self.replacement_mint != self.collection.replacement_mint {
            Some(Error::ConstraintAddress)
        } else {
            None
        }
    }

    /// Checks the account rules.
    pub fn check_constraints(&self) -> (r: Result<(), Error>)
        ensures
            r == match self.constraint_error() {
                Some(e) => Err(e),
                None => Ok(()),
            },
    {
        if !self.mint.equals(&self.collection.mint) {
            return Err(Error::ConstraintAddress);
        }
        if !self.user_token_account.mint.equals(&self.mint) {
            return Err(Error::ConstraintTokenMint);
        }
        if !self.vault.equals(&self.collection.vault) {
            return Err(Error::ConstraintAddress);
        }
        if !self.replacement_mint.equals(&self.collection.replacement_mint) {
            return Err(Error::ConstraintAddress);
        }
        Ok(())
    }
}

} // verus!
