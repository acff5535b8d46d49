use vstd::prelude::*;

use crate::accounts::{AddDistributionTokens, InitCollection, InitDistribution, WithdrawFromCollection};
use crate::key::{zero_key_bytes, Pubkey};
use crate::state::{Collection, Distribution, Error, ErrorCode, MAX_DISTRIBUTIONS, TERMS_HASH_LEN};
use crate::token::{Signer, TokenCall, TokenInstruction};

verus! {

/// A refused instruction: the error, and the token calls that the program
/// makes before it reaches the check that fails (a failing call reports its
/// own error first).
#[derive(Debug)]
pub struct Rejection {
    pub error: Error,
    pub calls: Vec<TokenCall>,
}

/// What `init_collection` produces: the new collection and the call that
/// hands the replacement mint's authority to the collection.
#[derive(Clone, Copy, Debug)]
pub struct InitializedCollection {
    pub set_authority: TokenCall,
    pub collection: Collection,
}

/// Whether `c` is the collection that `init_collection` creates from these arguments.
pub open spec fn is_initial_collection(
    c: Collection,
    accounts: InitCollection,
    counter: u64,
    burn_on_deposit: bool,
    burn_instead_of_withdraw: bool,
    terms_hash: [u8; TERMS_HASH_LEN],
) -> bool {
    &&& c.authority == accounts.authority
    &&& c.lifetime_tokens_collected == 0
    &&& c.max_collectable_tokens == accounts.mint.supply
    &&& c.mint == accounts.mint.key
    &&& c.vault == accounts.vault
    &&& c.replacement_mint == accounts.replacement_mint.key
    &&& c.bump == accounts.collection_bump
    &&& c.counter == counter
    &&& c.burn_on_deposit == burn_on_deposit
    &&& c.burn_instead_of_withdraw == burn_instead_of_withdraw
    &&& c.terms_hash == terms_hash
    &&& c.num_distributions == 0
    &&& forall|i: int| 0 <= i < MAX_DISTRIBUTIONS ==> (#[trigger] c.distributions@[i])@ == zero_key_bytes()
}

/// The call that gives the collection the authority to mint replacement tokens.
pub open spec fn set_authority_call(accounts: InitCollection) -> TokenCall {
    TokenCall {
        instruction: TokenInstruction::SetMintAuthority {
            mint: accounts.replacement_mint.key,
            current_authority: accounts.authority,
            new_authority: accounts.collection,
        },
        signer: Signer::Wallet,
    }
}

/// Initializes a new collection for gathering tokens from users.
///
/// A collection allows users to deposit tokens and receive proportional rewards
/// from multiple distributions. The collection tracks the total tokens deposited
/// and enforces a maximum cap based on the mint's current supply.
///
/// * `counter` - Unique counter value to allow multiple collections for the same mint
/// * `burn_on_deposit` - If true, committed tokens will be burned instead of stored in the vault
/// * `burn_instead_of_withdraw` - If true, withdraw_from_collection burns tokens instead of withdrawing
/// * `terms_hash` - Hash of the terms of service that committing users must acknowledge
pub fn init_collection(
    accounts: &InitCollection,
    counter: u64,
    burn_on_deposit: bool,
    burn_instead_of_withdraw: bool,
    terms_hash: [u8; TERMS_HASH_LEN],
) -> (r: Result<InitializedCollection, Error>)
    ensures
        accounts.constraint_error() matches Some(e) ==> r == Err::<InitializedCollection, Error>(e),
        accounts.constraint_error() is None && accounts.mint.supply == 0 ==> r == Err::<
            InitializedCollection,
            Error,
        >(Error::Program(ErrorCode::InvalidMaxCollectableTokens)),
        accounts.constraint_error() is None && accounts.mint.supply > 0 ==> (r matches Ok(out) && {
            &&& out.set_authority == set_authority_call(*accounts)
            &&& is_initial_collection(
                out.collection,
                *accounts,
                counter,
                burn_on_deposit,
                burn_instead_of_withdraw,
                terms_hash,
            )
        }),
{
    accounts.check_constraints()?;
    let max_collectable_tokens = accounts.mint.supply;
    if max_collectable_tokens == 0 {
        return Err(Error::Program(ErrorCode::InvalidMaxCollectableTokens));
    }
    let set_authority = TokenCall {
        instruction: TokenInstruction::SetMintAuthority {
            mint: accounts.replacement_mint.key,
            current_authority: accounts.authority,
            new_authority: accounts.collection,
        },
        signer: Signer::Wallet,
    };
    let zero = Pubkey::zeroed();
    let collection = Collection {
        authority: accounts.authority,
        lifetime_tokens_collected: 0,
        max_collectable_tokens,
        mint: accounts.mint.key,
        vault: accounts.vault,
        replacement_mint: accounts.replacement_mint.key,
        bump: accounts.collection_bump,
        counter,
        burn_on_deposit,
        burn_instead_of_withdraw,
        terms_hash,
        num_distributions: 0,
        distributions: [zero; MAX_DISTRIBUTIONS],
    };
    Ok(InitializedCollection { set_authority, collection })
}

/// The signer of calls made by the collection's derived address.
pub open spec fn collection_signer(c: Collection) -> Signer {
    Signer::Collection { authority: c.authority, mint: c.mint, counter: c.counter, bump: c.bump }
}

/// The call that empties the collection vault: a burn when the collection was
/// set up to burn instead of withdrawing, else a transfer to the authority.
pub open spec fn withdraw_call(accounts: WithdrawFromCollection) -> TokenCall {
    let c = accounts.collection;
    TokenCall {
        instruction: if c.burn_instead_of_withdraw {
            TokenInstruction::Burn {
                mint: accounts.mint,
                from: accounts.vault.key,
                authority: accounts.collection_key,
                amount: accounts.vault.amount,
            }
        } else {
            TokenInstruction::Transfer {
                from: accounts.vault.key,
                to: accounts.authority_token_account.key,
                authority: accounts.collection_key,
                amount: accounts.vault.amount,
            }
        },
        signer: collection_signer(c),
    }
}

/// Withdraws all tokens from the collection vault to the authority's token account,
/// or burns them if `burn_instead_of_withdraw` was set during collection initialization.
///
/// Can only be called by the collection authority. The collection itself is left
/// as it is: what was collected still counts for reward shares.
pub fn withdraw_from_collection(accounts: &WithdrawFromCollection) -> (r: Result<TokenCall, Error>)
    ensures
        r == match accounts.constraint_error() {
            Some(e) => Err(e),
            None => Ok(withdraw_call(*accounts)),
        },
{
    accounts.check_constraints()?;
    let c = &accounts.collection;
    let amount = accounts.vault.amount;
    let instruction = if c.burn_instead_of_withdraw {
        TokenInstruction::Burn {
            mint: accounts.mint,
            from: accounts.vault.key,
            authority: accounts.collection_key,
            amount,
        }
    } else {
        TokenInstruction::Transfer {
            from: accounts.vault.key,
            to: accounts.authority_token_account.key,
            authority: accounts.collection_key,
            amount,
        }
    };
    let signer = Signer::Collection {
        authority: c.authority,
        mint: c.mint,
        counter: c.counter,
        bump: c.bump,
    };
    Ok(TokenCall { instruction, signer })
}

/// What `init_distribution` produces: the collection with the new distribution
/// registered, and the new distribution.
#[derive(Clone, Copy, Debug)]
pub struct InitializedDistribution {
    pub collection: Collection,
    pub distribution: Distribution,
}

/// The distribution that `init_distribution` creates.
pub open spec fn initial_distribution(accounts: InitDistribution) -> Distribution {
    Distribution {
        collection: accounts.collection_key,
        lifetime_deposited_tokens: 0,
        mint: accounts.mint,
        vault: accounts.vault,
        distributed_tokens: 0,
        bump: accounts.distribution_bump,
    }
}

/// Whether `after` is `before` with `key` registered as its next distribution.
pub open spec fn registers(before: Collection, after: Collection, key: Pubkey) -> bool {
    &&& after == Collection {
        num_distributions: after.num_distributions,
        distributions: after.distributions,
        ..before
    }
    &&& after.num_distributions == before.num_distributions + 1
    &&& after.distributions@ == before.distributions@.update(before.num_distributions as int, key)
}

/// Initializes a new distribution associated with a collection.
///
/// A distribution allows proportional sharing of tokens to collection depositors.
/// The distributed token type can be different from the collected token type.
/// Can only be called by the collection authority.
pub fn init_distribution(accounts: &InitDistribution) -> (r: Result<InitializedDistribution, Error>)
    ensures
        accounts.constraint_error() matches Some(e) ==> r == Err::<InitializedDistribution, Error>(e),
        accounts.constraint_error() is None && accounts.collection.num_distributions >= MAX_DISTRIBUTIONS
            ==> r == Err::<InitializedDistribution, Error>(
            Error::Program(ErrorCode::MaxDistributionsExceeded),
        ),
        accounts.constraint_error() is None && accounts.collection.num_distributions < MAX_DISTRIBUTIONS
            ==> (r matches Ok(out) && {
            &&& out.distribution == initial_distribution(*accounts)
            &&& registers(accounts.collection, out.collection, accounts.distribution)
        }),
{
    accounts.check_constraints()?;
    if (accounts.collection.num_distributions as usize) >= MAX_DISTRIBUTIONS {
        return Err(Error::Program(ErrorCode::MaxDistributionsExceeded));
    }
    let distribution = Distribution {
        collection: accounts.collection_key,
        lifetime_deposited_tokens: 0,
        mint: accounts.mint,
        vault: accounts.vault,
        distributed_tokens: 0,
        bump: accounts.distribution_bump,
    };
    let mut collection = accounts.collection;
    let idx = collection.num_distributions as usize;
    collection.distributions[idx] = accounts.distribution;
    collection.num_distributions = collection.num_distributions + 1;
    Ok(InitializedDistribution { collection, distribution })
}

/// What `add_distribution_tokens` produces: the transfer into the distribution
/// vault and the distribution with the deposit counted.
#[derive(Clone, Copy, Debug)]
pub struct Deposit {
    pub transfer: TokenCall,
    pub distribution: Distribution,
}

/// The transfer of the depositor's tokens into the distribution vault.
pub open spec fn deposit_call(accounts: AddDistributionTokens, amount: u64) -> TokenCall {
    TokenCall {
        instruction: TokenInstruction::Transfer {
            from: accounts.depositor_token_account.key,
            to: accounts.vault.key,
            authority: accounts.depositor,
            amount,
        },
        signer: Signer::Wallet,
    }
}

/// `d` with `amount` more tokens deposited over its lifetime.
pub open spec fn deposited(d: Distribution, amount: u64) -> Distribution {
    Distribution {
        lifetime_deposited_tokens: (d.lifetime_deposited_tokens + amount) as u64,
        ..d
    }
}

/// Adds tokens to a distribution's vault for later distribution to users.
///
/// Anyone can add tokens to a distribution. This allows for flexible token
/// sourcing - the tokens don't have to come from the collection authority.
///
/// * `amount` - Number of tokens to add to the distribution
pub fn add_distribution_tokens(accounts: &AddDistributionTokens, amount: u64) -> (r: Result<
    Deposit,
    Rejection,
>)
    ensures
        accounts.constraint_error() matches Some(e) ==> (r matches Err(j) && j.error == e
            && j.calls@ == Seq::<TokenCall>::empty()),
        accounts.constraint_error() is None && accounts.distribution.lifetime_deposited_tokens
            + amount > u64::MAX ==> (r matches Err(j) && j.error == Error::Program(
            ErrorCode::Overflow,
        ) && j.calls@ == seq![deposit_call(*accounts, amount)]),
        accounts.constraint_error() is None && accounts.distribution.lifetime_deposited_tokens
            + amount <= u64::MAX ==> (r matches Ok(out) && {
            &&& out.transfer == deposit_call(*accounts, amount)
            &&& out.distribution == deposited(accounts.distribution, amount)
        }),
{
    if let Err(error) = accounts.check_constraints() {
        return Err(Rejection { error, calls: Vec::new() });
    }
    let transfer = TokenCall {
        instruction: TokenInstruction::Transfer {
            from: accounts.depositor_token_account.key,
            to: accounts.vault.key,
            authority: accounts.depositor,
            amount,
        },
        signer: Signer::Wallet,
    };
    match accounts.distribution.lifetime_deposited_tokens.checked_add(amount) {
        Some(total) => {
            let mut distribution = accounts.distribution;
            distribution.lifetime_deposited_tokens = total;
            Ok(Deposit { transfer, distribution })
        },
        None => {
            let mut calls: Vec<TokenCall> = Vec::new();
            calls.push(transfer);
            proof {
                assert(calls@ =~= seq![deposit_call(*accounts, amount)]);
            }
            Err(Rejection { error: Error::Program(ErrorCode::Overflow), calls })
        },
    }
}

} // verus!
