use vstd::prelude::*;

use crate::accounts::UserCommitAndClaimStateless;
use crate::instructions::{collection_signer, Rejection};
use crate::key::Pubkey;
use crate::share::{share_of, user_share};
use crate::state::{Collection, DecodeError, Distribution, Error, ErrorCode, MAX_DISTRIBUTIONS, TERMS_HASH_LEN};
use crate::token::{Signer, TokenCall, TokenInstruction};

verus! {

/// An account passed after the named accounts of `user_commit_and_claim_stateless`.
/// They come in groups of three per distribution: the distribution account,
/// its vault, and the user's token account for the distribution's mint.
#[derive(Clone, Copy, Debug)]
pub struct RemainingAccount {
    pub key: Pubkey,
    /// The program that owns the account.
    pub owner: Pubkey,
    /// The account's data read as a distribution, or why it does not read as one.
    pub distribution: Result<Distribution, DecodeError>,
}

/// One distribution's payout to a committing user.
#[derive(Clone, Copy, Debug)]
pub struct Claim {
    /// The position of the distribution among the registered ones.
    pub index: usize,
    /// The address of the distribution account.
    pub distribution_key: Pubkey,
    /// The distribution with the payout counted, to be stored back.
    pub distribution: Distribution,
    /// The user's share of the distribution.
    pub user_share: u64,
    /// The transfer of the share from the distribution vault to the user.
    pub transfer: TokenCall,
}

/// What `user_commit_and_claim_stateless` produces.
#[derive(Debug)]
pub struct CommitAndClaim {
    /// The call that burns the committed tokens or moves them into the vault.
    pub commit: TokenCall,
    /// The call that mints the replacement tokens to the user.
    pub mint_replacement: TokenCall,
    /// The collection with the committed tokens counted.
    pub collection: Collection,
    /// One payout per registered distribution, in registration order.
    pub claims: Vec<Claim>,
}

/// `c` with `amount` more tokens collected over its lifetime.
pub open spec fn committed(c: Collection, amount: u64) -> Collection {
    Collection { lifetime_tokens_collected: (c.lifetime_tokens_collected + amount) as u64, ..c }
}

/// `d` with `share` more tokens handed out.
pub open spec fn paid_out(d: Distribution, share: u64) -> Distribution {
    Distribution { distributed_tokens: (d.distributed_tokens + share) as u64, ..d }
}

/// The call that takes the committed tokens from the user: a burn when the
/// collection burns on deposit, else a transfer into the collection vault.
pub open spec fn commit_call(accounts: UserCommitAndClaimStateless, amount: u64) -> TokenCall {
    TokenCall {
        instruction: if accounts.collection.burn_on_deposit {
            TokenInstruction::Burn {
                mint: accounts.mint,
                from: accounts.user_token_account.key,
                authority: accounts.user,
                amount,
            }
        } else {
            TokenInstruction::Transfer {
                from: accounts.user_token_account.key,
                to: accounts.vault,
                authority: accounts.user,
                amount,
            }
        },
        signer: Signer::Wallet,
    }
}

/// The call that mints as many replacement tokens as were committed.
pub open spec fn mint_call(accounts: UserCommitAndClaimStateless, amount: u64) -> TokenCall {
    TokenCall {
        instruction: TokenInstruction::MintTo {
            mint: accounts.replacement_mint,
            to: accounts.user_replacement_token_account,
            authority: accounts.collection_key,
            amount,
        },
        signer: collection_signer(accounts.collection),
    }
}

/// The state of the distribution at `key` as the program reads it after the
/// payouts in `done`: the last payout stored to that account, else what the
/// account held when the instruction began.
pub open spec fn state_before(
    done: Seq<Claim>,
    key: Pubkey,
    stored: Result<Distribution, DecodeError>,
) -> Result<Distribution, DecodeError>
    decreases done.len(),
{
    if done.len() == 0 {
        stored
    } else if done.last().distribution_key == key {
        Ok(done.last().distribution)
    } else {
        state_before(done.drop_last(), key, stored)
    }
}

/// The payout for the `i`-th group of remaining accounts, after the payouts in
/// `done`, or the error with which the program refuses it. `c` is the
/// collection with the commitment counted.
pub open spec fn claim_group(
    c: Collection,
    collection_key: Pubkey,
    program_id: Pubkey,
    amount: u64,
    remaining: Seq<RemainingAccount>,
    done: Seq<Claim>,
    i: int,
) -> Result<Claim, Error> {
    let account = remaining[3 * i];
    let vault = remaining[3 * i + 1].key;
    let user_account = remaining[3 * i + 2].key;
    if account.key != c.distributions@[i] {
        Err(Error::Program(ErrorCode::DistributionsMismatch))
    } else if account.owner != program_id {
        Err(Error::Program(ErrorCode::InvalidDistributionOwner))
    } else {
        match state_before(done, account.key, account.distribution) {
            Err(e) => Err(Error::AccountData(e)),
            Ok(d) => {
                if d.collection != collection_key {
                    Err(Error::Program(ErrorCode::DistributionCollectionMismatch))
                } else if d.vault != vault {
                    Err(Error::Program(ErrorCode::InvalidDistributionVault))
                } else if c.max_collectable_tokens == 0 {
                    Err(Error::Program(ErrorCode::Overflow))
                } else {
                    let share = share_of(
                        amount as int,
                        d.lifetime_deposited_tokens as int,
                        c.max_collectable_tokens as int,
                    ) as u64;
                    if d.distributed_tokens + share > u64::MAX {
                        Err(Error::Program(ErrorCode::Overflow))
                    } else {
                        Ok(
                            Claim {
                                index: i as usize,
                                distribution_key: account.key,
                                distribution: paid_out(d, share),
                                user_share: share,
                                transfer: TokenCall {
                                    instruction: TokenInstruction::Transfer {
                                        from: vault,
                                        to: user_account,
                                        authority: account.key,
                                        amount: share,
                                    },
                                    signer: Signer::Distribution {
                                        collection: d.collection,
                                        mint: d.mint,
                                        bump: d.bump,
                                    },
                                },
                            },
                        )
                    }
                }
            },
        }
    }
}

/// The payouts for the first `n` groups, in order, stopping at the first
/// group that is refused, together with that group's error.
pub open spec fn claim_run(
    c: Collection,
    collection_key: Pubkey,
    program_id: Pubkey,
    amount: u64,
    remaining: Seq<RemainingAccount>,
    n: nat,
) -> (Seq<Claim>, Option<Error>)
    decreases n,
{
    if n == 0 {
        (Seq::empty(), None)
    } else {
        let (done, err) = claim_run(c, collection_key, program_id, amount, remaining, (n - 1) as nat);
        if err is Some {
            (done, err)
        } else {
            match claim_group(c, collection_key, program_id, amount, remaining, done, n - 1) {
                Ok(claim) => (done.push(claim), None),
                Err(e) => (done, Some(e)),
            }
        }
    }
}

/// The transfers of a sequence of payouts.
pub open spec fn transfers(claims: Seq<Claim>) -> Seq<TokenCall> {
    claims.map_values(|cl: Claim| cl.transfer)
}

/// The error with which `user_commit_and_claim_stateless` refuses its input,
/// with the token calls made before the refusing check, or `None` when it
/// accepts it.
pub open spec fn commit_and_claim_refusal(
    accounts: UserCommitAndClaimStateless,
    remaining: Seq<RemainingAccount>,
    program_id: Pubkey,
    amount: u64,
    terms_hash: [u8; TERMS_HASH_LEN],
) -> Option<(Error, Seq<TokenCall>)> {
    let c = accounts.collection;
    let before_claims = seq![commit_call(accounts, amount), mint_call(accounts, amount)];
    if accounts.constraint_error() is Some {
        Some((accounts.constraint_error().unwrap(), Seq::empty()))
    } else if terms_hash@ != c.terms_hash@ {
        Some((Error::Program(ErrorCode::TermsHashMismatch), Seq::empty()))
    } else if c.lifetime_tokens_collected + amount > u64::MAX {
        Some((Error::Program(ErrorCode::Overflow), before_claims))
    } else if c.lifetime_tokens_collected + amount > c.max_collectable_tokens {
        Some((Error::Program(ErrorCode::MaxCollectableTokensExceeded), before_claims))
    } else if remaining.len() % 3 != 0 {
        Some((Error::Program(ErrorCode::InvalidRemainingAccounts), before_claims))
    } else if remaining.len() / 3 != c.num_distributions {
        Some((Error::Program(ErrorCode::DistributionsMismatch), before_claims))
    } else {
        let run = claim_run(
            committed(c, amount),
            accounts.collection_key,
            program_id,
            amount,
            remaining,
            c.num_distributions as nat,
        );
        match run.1 {
            Some(e) => Some((e, before_claims + transfers(run.0))),
            None => None,
        }
    }
}

/// The payouts of an accepted `user_commit_and_claim_stateless`.
pub open spec fn commit_and_claim_payouts(
    accounts: UserCommitAndClaimStateless,
    remaining: Seq<RemainingAccount>,
    program_id: Pubkey,
    amount: u64,
) -> Seq<Claim> {
    claim_run(
        committed(accounts.collection, amount),
        accounts.collection_key,
        program_id,
        amount,
        remaining,
        accounts.collection.num_distributions as nat,
    ).0
}

/// Once a group is refused, later groups change nothing.
proof fn lemma_run_stops(
    c: Collection,
    collection_key: Pubkey,
    program_id: Pubkey,
    amount: u64,
    remaining: Seq<RemainingAccount>,
    k: nat,
    n: nat,
)
    requires
        k <= n,
        claim_run(c, collection_key, program_id, amount, remaining, k).1 is Some,
    ensures
        claim_run(c, collection_key, program_id, amount, remaining, n) == claim_run(
            c,
            collection_key,
            program_id,
            amount,
            remaining,
            k,
        ),
    decreases n - k,
{
    if k < n {
        lemma_run_stops(c, collection_key, program_id, amount, remaining, k, (n - 1) as nat);
    }
}

/// Reads the distribution at `key` as it stands after the payouts in `done`.
fn read_state(done: &Vec<Claim>, key: &Pubkey, stored: Result<Distribution, DecodeError>) -> (r: Result<
    Distribution,
    DecodeError,
>)
    ensures
        r == state_before(done@, *key, stored),
{
    let mut j: usize = done.len();
    assert(done@.take(j as int) =~= done@);
    while j > 0
        invariant
            j <= done@.len(),
            state_before(done@, *key, stored) == state_before(done@.take(j as int), *key, stored),
        decreases j,
    {
        let ghost prefix = done@.take(j as int);
        assert(prefix.last() == done@[j - 1]);
        assert(prefix.drop_last() =~= done@.take(j - 1));
        if done[j - 1].distribution_key.equals(key) {
            return Ok(done[j - 1].distribution);
        }
        j = j - 1;
    }
    assert(done@.take(0).len() == 0);
    stored
}

/// Checks the `i`-th group of remaining accounts and computes its payout.
fn claim_one(
    c: &Collection,
    collection_key: &Pubkey,
    program_id: &Pubkey,
    amount: u64,
    remaining: &Vec<RemainingAccount>,
    done: &Vec<Claim>,
    i: usize,
) -> (r: Result<Claim, Error>)
    requires
        c.wf(),
        i < c.num_distributions,
        3 * i + 2 < remaining@.len(),
        amount <= c.max_collectable_tokens,
    ensures
        r == claim_group(*c, *collection_key, *program_id, amount, remaining@, done@, i as int),
{
    let account = remaining[3 * i];
    let vault = remaining[3 * i + 1].key;
    let user_account = remaining[3 * i + 2].key;
    if !account.key.equals(&c.distributions[i]) {
        return Err(Error::Program(ErrorCode::DistributionsMismatch));
    }
    if !account.owner.equals(program_id) {
        return Err(Error::Program(ErrorCode::InvalidDistributionOwner));
    }
    let d = match read_state(done, &account.key, account.distribution) {
        Ok(d) => d,
        Err(e) => {
            return Err(Error::AccountData(e));
        },
    };
    if !d.collection.equals(collection_key) {
        return Err(Error::Program(ErrorCode::DistributionCollectionMismatch));
    }
    if !d.vault.equals(&vault) {
        return Err(Error::Program(ErrorCode::InvalidDistributionVault));
    }
    let share = match user_share(amount, d.lifetime_deposited_tokens, c.max_collectable_tokens) {
        Some(s) => s,
        None => {
            return Err(Error::Program(ErrorCode::Overflow));
        },
    };
    let distributed = match d.distributed_tokens.checked_add(share) {
        Some(t) => t,
        None => {
            return Err(Error::Program(ErrorCode::Overflow));
        },
    };
    let mut updated = d;
    updated.distributed_tokens = distributed;
    Ok(
        Claim {
            index: i,
            distribution_key: account.key,
            distribution: updated,
            user_share: share,
            transfer: TokenCall {
                instruction: TokenInstruction::Transfer {
                    from: vault,
                    to: user_account,
                    authority: account.key,
                    amount: share,
                },
                signer: Signer::Distribution { collection: d.collection, mint: d.mint, bump: d.bump },
            },
        },
    )
}

/// The commit and mint calls followed by the transfers of the payouts so far.
fn calls_so_far(commit: TokenCall, mint: TokenCall, done: &Vec<Claim>) -> (r: Vec<TokenCall>)
    ensures
        r@ == seq![commit, mint] + transfers(done@),
{
    let mut r: Vec<TokenCall> = Vec::new();
    r.push(commit);
    r.push(mint);
    let mut k: usize = 0;
    while k < done.len()
        invariant
            k <= done@.len(),
            r@ == seq![commit, mint] + transfers(done@.take(k as int)),
        decreases done@.len() - k,
    {
        r.push(done[k].transfer);
        k = k + 1;
        assert(transfers(done@.take(k as int)) =~= transfers(done@.take(k - 1)).push(
            done@[k - 1].transfer,
        ));
    }
    assert(done@.take(done@.len() as int) =~= done@);
    r
}

/// Commits tokens and immediately claims from multiple distributions in a single transaction.
///
/// This instruction combines committing tokens to a collection with claiming from
/// multiple distributions, leaving no on-chain state for the user. The user must
/// give the collection's terms hash, as proof of agreement to its terms.
///
/// * `amount` - Number of tokens to commit to the collection
/// * `remaining` - For each registered distribution, in order: the distribution
///   account, its vault, and the user's token account for the distribution's mint
/// * `program_id` - This program's address, which must own the distribution accounts
#[verifier::loop_isolation(false)]
pub fn user_commit_and_claim_stateless(
    accounts: &UserCommitAndClaimStateless,
    remaining: &Vec<RemainingAccount>,
    program_id: &Pubkey,
    amount: u64,
    terms_hash: [u8; TERMS_HASH_LEN],
) -> (r: Result<CommitAndClaim, Rejection>)
    requires
        accounts.collection.wf(),
    ensures
        match commit_and_claim_refusal(*accounts, remaining@, *program_id, amount, terms_hash) {
            Some((e, calls)) => r matches Err(j) && j.error == e && j.calls@ == calls,
            None => r matches Ok(out) && {
                &&& out.commit == commit_call(*accounts, amount)
                &&& out.mint_replacement == mint_call(*accounts, amount)
                &&& out.collection == committed(accounts.collection, amount)
                &&& out.claims@ == commit_and_claim_payouts(*accounts, remaining@, *program_id, amount)
            },
        },
{
    if let Err(error) = accounts.check_constraints() {
        return Err(Rejection { error, calls: Vec::new() });
    }
    let c = &accounts.collection;
    if !Pubkey::new(terms_hash).equals(&Pubkey::new(c.terms_hash)) {
        return Err(Rejection { error: Error::Program(ErrorCode::TermsHashMismatch), calls: Vec::new() });
    }
    let commit = TokenCall {
        instruction: if c.burn_on_deposit {
            TokenInstruction::Burn {
                mint: accounts.mint,
                from: accounts.user_token_account.key,
                authority: accounts.user,
                amount,
            }
        } else {
            TokenInstruction::Transfer {
                from: accounts.user_token_account.key,
                to: accounts.vault,
                authority: accounts.user,
                amount,
            }
        },
        signer: Signer::Wallet,
    };
    let mint_replacement = TokenCall {
        instruction: TokenInstruction::MintTo {
            mint: accounts.replacement_mint,
            to: accounts.user_replacement_token_account,
            authority: accounts.collection_key,
            amount,
        },
        signer: Signer::Collection {
            authority: c.authority,
            mint: c.mint,
            counter: c.counter,
            bump: c.bump,
        },
    };
    let mut collection = *c;
    let total = match c.lifetime_tokens_collected.checked_add(amount) {
        Some(t) => t,
        None => {
            let calls = calls_so_far(commit, mint_replacement, &Vec::new());
            return Err(Rejection { error: Error::Program(ErrorCode::Overflow), calls });
        },
    };
    collection.lifetime_tokens_collected = total;
    if total > c.max_collectable_tokens {
        let calls = calls_so_far(commit, mint_replacement, &Vec::new());
        return Err(Rejection { error: Error::Program(ErrorCode::MaxCollectableTokensExceeded), calls });
    }
    if remaining.len() % 3 != 0 {
        let calls = calls_so_far(commit, mint_replacement, &Vec::new());
        return Err(Rejection { error: Error::Program(ErrorCode::InvalidRemainingAccounts), calls });
    }
    let num_distributions = c.num_distributions as usize;
    if remaining.len() / 3 != num_distributions {
        let calls = calls_so_far(commit, mint_replacement, &Vec::new());
        return Err(Rejection { error: Error::Program(ErrorCode::DistributionsMismatch), calls });
    }
    let ghost run_c = committed(*c, amount);
    assert(collection == run_c);
    let mut claims: Vec<Claim> = Vec::new();
    let mut i: usize = 0;
    while i < num_distributions
        invariant
            i <= num_distributions,
            num_distributions == c.num_distributions,
            num_distributions <= MAX_DISTRIBUTIONS,
            remaining@.len() == 3 * num_distributions,
            collection == run_c,
            collection.wf(),
            collection.num_distributions == num_distributions,
            amount <= collection.max_collectable_tokens,
            claim_run(run_c, accounts.collection_key, *program_id, amount, remaining@, i as nat) == (
            claims@, None::<Error>),
        decreases num_distributions - i,
    {
        match claim_one(&collection, &accounts.collection_key, program_id, amount, remaining, &claims, i) {
            Ok(claim) => {
                claims.push(claim);
            },
            Err(error) => {
                proof {
                    assert(claim_run(
                        run_c,
                        accounts.collection_key,
                        *program_id,
                        amount,
                        remaining@,
                        (i + 1) as nat,
                    ) == (claims@, Some(error)));
                    lemma_run_stops(
                        run_c,
                        accounts.collection_key,
                        *program_id,
                        amount,
                        remaining@,
                        (i + 1) as nat,
                        num_distributions as nat,
                    );
                }
                let calls = calls_so_far(commit, mint_replacement, &claims);
                return Err(Rejection { error, calls });
            },
        }
        i = i + 1;
    }
    Ok(CommitAndClaim { commit, mint_replacement, collection, claims })
}

} // verus!
