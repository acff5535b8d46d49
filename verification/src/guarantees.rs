use vstd::prelude::*;
use vstd::bytes::spec_u64_to_le_bytes;

use crate::accounts::{
    AddDistributionTokens, InitCollection, InitDistribution, UserCommitAndClaimStateless,
    WithdrawFromCollection,
};
use crate::claim::{
    claim_group, commit_and_claim_payouts, commit_and_claim_refusal, commit_call, committed,
    mint_call, paid_out, state_before,
};
use crate::instructions::{
    deposit_call, deposited, initial_distribution, is_initial_collection, registers,
    set_authority_call, withdraw_call,
};
use crate::key::{zero_key_bytes, Pubkey};
use crate::laws::lemma_run_follows_registry;
use crate::share::{lemma_share_is_floor, lemma_share_within_deposit, share_of};
use crate::state::{Collection, Distribution, Error, ErrorCode, MAX_DISTRIBUTIONS, TERMS_HASH_LEN};
use crate::token::{Signer, TokenCall, TokenInstruction};

verus! {

/// The collection's derived address signs with the seeds `collection`, the
/// authority, the collected mint, the counter in little-endian bytes and the bump.
pub proof fn collection_seeds_are_fixed(authority: Pubkey, mint: Pubkey, counter: u64, bump: u8)
    ensures
        (Signer::Collection { authority, mint, counter, bump }).spec_seeds() == seq![
            seq![0x63u8, 0x6f, 0x6c, 0x6c, 0x65, 0x63, 0x74, 0x69, 0x6f, 0x6e],
            authority@,
            mint@,
            spec_u64_to_le_bytes(counter),
            seq![bump],
        ],
{
}

/// A distribution's derived address signs with the seeds `distribution`, its
/// collection, its mint and its bump.
pub proof fn distribution_seeds_are_fixed(collection: Pubkey, mint: Pubkey, bump: u8)
    ensures
        (Signer::Distribution { collection, mint, bump }).spec_seeds() == seq![
            seq![0x64u8, 0x69, 0x73, 0x74, 0x72, 0x69, 0x62, 0x75, 0x74, 0x69, 0x6f, 0x6e],
            collection@,
            mint@,
            seq![bump],
        ],
{
}

/// A new collection records exactly the arguments and accounts it was created
/// from: its two burn settings are the ones given, each on its own; its cap is
/// the mint's supply; nothing is collected and nothing registered. Creating it
/// hands the replacement mint's authority from the signer to the collection.
pub proof fn new_collection_records_its_arguments(
    c: Collection,
    accounts: InitCollection,
    counter: u64,
    burn_on_deposit: bool,
    burn_instead_of_withdraw: bool,
    terms_hash: [u8; TERMS_HASH_LEN],
)
    requires
        is_initial_collection(c, accounts, counter, burn_on_deposit, burn_instead_of_withdraw, terms_hash),
    ensures
        c.burn_on_deposit == burn_on_deposit,
        c.burn_instead_of_withdraw == burn_instead_of_withdraw,
        c.counter == counter,
        c.terms_hash == terms_hash,
        c.max_collectable_tokens == accounts.mint.supply,
        c.lifetime_tokens_collected == 0,
        c.authority == accounts.authority,
        c.mint == accounts.mint.key,
        c.vault == accounts.vault,
        c.replacement_mint == accounts.replacement_mint.key,
        c.bump == accounts.collection_bump,
        c.num_distributions == 0,
        forall|i: int| 0 <= i < MAX_DISTRIBUTIONS ==> (#[trigger] c.distributions@[i])@ == zero_key_bytes(),
        set_authority_call(accounts).instruction == (TokenInstruction::SetMintAuthority {
            mint: accounts.replacement_mint.key,
            current_authority: accounts.authority,
            new_authority: accounts.collection,
        }),
        set_authority_call(accounts).signer == Signer::Wallet,
{
}

/// A withdrawal moves or burns the whole vault balance out of the collection
/// vault, burning exactly when the collection was set up to burn instead of
/// withdrawing, and is always signed by the collection's derived address,
/// whose seeds are its authority, collected mint, counter and bump.
pub proof fn withdrawal_empties_vault_as_collection(accounts: WithdrawFromCollection)
    ensures
        ({
            let c = accounts.collection;
            let call = withdraw_call(accounts);
            &&& call.signer == (Signer::Collection {
                authority: c.authority,
                mint: c.mint,
                counter: c.counter,
                bump: c.bump,
            })
            &&& match call.instruction {
                TokenInstruction::Burn { mint, from, authority, amount } => {
                    &&& c.burn_instead_of_withdraw
                    &&& mint == accounts.mint
                    &&& from == accounts.vault.key
                    &&& authority == accounts.collection_key
                    &&& amount == accounts.vault.amount
                },
                TokenInstruction::Transfer { from, to, authority, amount } => {
                    &&& !c.burn_instead_of_withdraw
                    &&& from == accounts.vault.key
                    &&& to == accounts.authority_token_account.key
                    &&& authority == accounts.collection_key
                    &&& amount == accounts.vault.amount
                },
                _ => false,
            }
        }),
{
}

/// A new distribution belongs to the collection it was registered with, holds
/// its tokens in the given vault, has nothing deposited or handed out, and is
/// appended at the end of the collection's registry, all else unchanged.
pub proof fn new_distribution_records_its_accounts(accounts: InitDistribution, after: Collection)
    requires
        accounts.collection.num_distributions < MAX_DISTRIBUTIONS,
        registers(accounts.collection, after, accounts.distribution),
    ensures
        initial_distribution(accounts).collection == accounts.collection_key,
        initial_distribution(accounts).mint == accounts.mint,
        initial_distribution(accounts).vault == accounts.vault,
        initial_distribution(accounts).bump == accounts.distribution_bump,
        initial_distribution(accounts).lifetime_deposited_tokens == 0,
        initial_distribution(accounts).distributed_tokens == 0,
        after.num_distributions == accounts.collection.num_distributions + 1,
        after.distributions@[accounts.collection.num_distributions as int] == accounts.distribution,
        forall|i: int|
            0 <= i < after.distributions@.len() && i != accounts.collection.num_distributions
                ==> #[trigger] after.distributions@[i] == accounts.collection.distributions@[i],
        after.lifetime_tokens_collected == accounts.collection.lifetime_tokens_collected,
        after.max_collectable_tokens == accounts.collection.max_collectable_tokens,
        after.burn_on_deposit == accounts.collection.burn_on_deposit,
        after.burn_instead_of_withdraw == accounts.collection.burn_instead_of_withdraw,
        after.authority == accounts.collection.authority,
        after.mint == accounts.collection.mint,
        after.vault == accounts.collection.vault,
        after.replacement_mint == accounts.collection.replacement_mint,
        after.counter == accounts.collection.counter,
        after.bump == accounts.collection.bump,
        after.terms_hash == accounts.collection.terms_hash,
{
    broadcast use vstd::array::array_len_matches_n;

    assert(accounts.collection.distributions@.len() == MAX_DISTRIBUTIONS);
}

/// A deposit charges the depositor exactly the amount given, into the
/// distribution vault, and the distribution's lifetime deposits grow by that
/// same amount, all else unchanged.
pub proof fn deposit_moves_exactly_the_amount(accounts: AddDistributionTokens, amount: u64)
    requires
        accounts.distribution.lifetime_deposited_tokens + amount <= u64::MAX,
    ensures
        ({
            let d = accounts.distribution;
            let after = deposited(d, amount);
            &&& deposit_call(accounts, amount).instruction matches TokenInstruction::Transfer {
                from,
                to,
                authority,
                amount: moved,
            } && from == accounts.depositor_token_account.key && to == accounts.vault.key
                && authority == accounts.depositor && moved == amount
                && after.lifetime_deposited_tokens == d.lifetime_deposited_tokens + moved
            &&& deposit_call(accounts, amount).signer == Signer::Wallet
            &&& after.distributed_tokens == d.distributed_tokens
            &&& after.collection == d.collection
            &&& after.mint == d.mint
            &&& after.vault == d.vault
            &&& after.bump == d.bump
        }),
{
}

/// A commit takes exactly the committed amount from the user's token account,
/// burning it when the collection burns on deposit and otherwise moving it into
/// the collection vault; it mints exactly that amount of replacement tokens to
/// the user, signed by the collection's derived address (the same signer as
/// withdrawals), and adds that amount to the collected count.
pub proof fn commit_moves_and_mints_the_amount(accounts: UserCommitAndClaimStateless, amount: u64)
    ensures
        ({
            let c = accounts.collection;
            &&& commit_call(accounts, amount).signer == Signer::Wallet
            &&& match commit_call(accounts, amount).instruction {
                TokenInstruction::Burn { mint, from, authority, amount: taken } => {
                    &&& c.burn_on_deposit
                    &&& mint == accounts.mint
                    &&& from == accounts.user_token_account.key
                    &&& authority == accounts.user
                    &&& taken == amount
                },
                TokenInstruction::Transfer { from, to, authority, amount: taken } => {
                    &&& !c.burn_on_deposit
                    &&& from == accounts.user_token_account.key
                    &&& to == accounts.vault
                    &&& authority == accounts.user
                    &&& taken == amount
                },
                _ => false,
            }
            &&& mint_call(accounts, amount).instruction == (TokenInstruction::MintTo {
                mint: accounts.replacement_mint,
                to: accounts.user_replacement_token_account,
                authority: accounts.collection_key,
                amount,
            })
            &&& mint_call(accounts, amount).signer == (Signer::Collection {
                authority: c.authority,
                mint: c.mint,
                counter: c.counter,
                bump: c.bump,
            })
            &&& c.lifetime_tokens_collected + amount <= u64::MAX ==> committed(
                c,
                amount,
            ).lifetime_tokens_collected == c.lifetime_tokens_collected + amount
            &&& committed(c, amount).max_collectable_tokens == c.max_collectable_tokens
            &&& committed(c, amount).distributions == c.distributions
            &&& committed(c, amount).num_distributions == c.num_distributions
            &&& committed(c, amount).authority == c.authority
            &&& committed(c, amount).mint == c.mint
            &&& committed(c, amount).vault == c.vault
            &&& committed(c, amount).replacement_mint == c.replacement_mint
            &&& committed(c, amount).counter == c.counter
            &&& committed(c, amount).bump == c.bump
            &&& committed(c, amount).burn_on_deposit == c.burn_on_deposit
            &&& committed(c, amount).burn_instead_of_withdraw == c.burn_instead_of_withdraw
            &&& committed(c, amount).terms_hash == c.terms_hash
        }),
{
}

/// The collection signs replacement mints with the same derived address that
/// signs withdrawals from its vault.
pub proof fn minting_and_withdrawing_share_a_signer(
    commit: UserCommitAndClaimStateless,
    withdraw: WithdrawFromCollection,
    amount: u64,
)
    requires
        commit.collection == withdraw.collection,
    ensures
        mint_call(commit, amount).signer == withdraw_call(withdraw).signer,
{
}

/// Every payout of an accepted commit-and-claim transfers exactly the user's
/// share, `amount * deposited / cap` rounded down, from the distribution's vault
/// (the second account of its group) to the user's account (the third), signed
/// by the distribution's derived address; and the distribution then counts that
/// same share as handed out, all else unchanged. The distribution read is the
/// account's stored state, or its state after an earlier payout in the same
/// instruction.
pub proof fn every_payout_is_the_share(
    accounts: UserCommitAndClaimStateless,
    remaining: Seq<crate::claim::RemainingAccount>,
    program_id: Pubkey,
    amount: u64,
    terms_hash: [u8; TERMS_HASH_LEN],
)
    requires
        accounts.collection.wf(),
        commit_and_claim_refusal(accounts, remaining, program_id, amount, terms_hash) is None,
    ensures
        ({
            let c = accounts.collection;
            let payouts = commit_and_claim_payouts(accounts, remaining, program_id, amount);
            &&& payouts.len() == c.num_distributions
            &&& forall|k: int|
                0 <= k < payouts.len() ==> {
                    let read = state_before(
                        payouts.take(k),
                        c.distributions@[k],
                        remaining[3 * k].distribution,
                    );
                    let d = read->Ok_0;
                    let p = #[trigger] payouts[k];
                    &&& read is Ok
                    &&& p.index == k
                    &&& remaining[3 * k].key == c.distributions@[k]
                    &&& remaining[3 * k].owner == program_id
                    &&& p.distribution_key == c.distributions@[k]
                    &&& p.user_share * c.max_collectable_tokens <= amount * d.lifetime_deposited_tokens
                    &&& amount * d.lifetime_deposited_tokens < (p.user_share + 1) * c.max_collectable_tokens
                    &&& p.user_share == share_of(
                        amount as int,
                        d.lifetime_deposited_tokens as int,
                        c.max_collectable_tokens as int,
                    )
                    &&& p.user_share <= d.lifetime_deposited_tokens
                    &&& p.transfer.instruction == (TokenInstruction::Transfer {
                        from: remaining[3 * k + 1].key,
                        to: remaining[3 * k + 2].key,
                        authority: c.distributions@[k],
                        amount: p.user_share,
                    })
                    &&& p.transfer.signer == (Signer::Distribution {
                        collection: accounts.collection_key,
                        mint: d.mint,
                        bump: d.bump,
                    })
                    &&& p.distribution.distributed_tokens == d.distributed_tokens + p.user_share
                    &&& p.distribution.lifetime_deposited_tokens == d.lifetime_deposited_tokens
                    &&& p.distribution.collection == accounts.collection_key
                    &&& p.distribution.vault == remaining[3 * k + 1].key
                    &&& p.distribution.mint == d.mint
                    &&& p.distribution.bump == d.bump
                }
        }),
{
    let c = accounts.collection;
    let c1 = committed(c, amount);
    let n = c.num_distributions as nat;
    let payouts = commit_and_claim_payouts(accounts, remaining, program_id, amount);
    lemma_run_follows_registry(c1, accounts.collection_key, program_id, amount, remaining, n);
    assert forall|k: int| 0 <= k < payouts.len() implies {
        let read = state_before(payouts.take(k), c.distributions@[k], remaining[3 * k].distribution);
        let d = read->Ok_0;
        let p = #[trigger] payouts[k];
        &&& read is Ok
        &&& p.index == k
        &&& remaining[3 * k].key == c.distributions@[k]
        &&& remaining[3 * k].owner == program_id
        &&& p.distribution_key == c.distributions@[k]
        &&& p.user_share * c.max_collectable_tokens <= amount * d.lifetime_deposited_tokens
        &&& amount * d.lifetime_deposited_tokens < (p.user_share + 1) * c.max_collectable_tokens
        &&& p.user_share == share_of(
            amount as int,
            d.lifetime_deposited_tokens as int,
            c.max_collectable_tokens as int,
        )
        &&& p.user_share <= d.lifetime_deposited_tokens
        &&& p.transfer.instruction == (TokenInstruction::Transfer {
            from: remaining[3 * k + 1].key,
            to: remaining[3 * k + 2].key,
            authority: c.distributions@[k],
            amount: p.user_share,
        })
        &&& p.transfer.signer == (Signer::Distribution {
            collection: accounts.collection_key,
            mint: d.mint,
            bump: d.bump,
        })
        &&& p.distribution.distributed_tokens == d.distributed_tokens + p.user_share
        &&& p.distribution.lifetime_deposited_tokens == d.lifetime_deposited_tokens
        &&& p.distribution.collection == accounts.collection_key
        &&& p.distribution.vault == remaining[3 * k + 1].key
        &&& p.distribution.mint == d.mint
        &&& p.distribution.bump == d.bump
    } by {
        let read = state_before(payouts.take(k), c.distributions@[k], remaining[3 * k].distribution);
        assert(claim_group(c1, accounts.collection_key, program_id, amount, remaining, payouts.take(k), k)
            is Ok);
        let d = read->Ok_0;
        lemma_share_within_deposit(
            amount as int,
            d.lifetime_deposited_tokens as int,
            c.max_collectable_tokens as int,
        );
        lemma_share_is_floor(
            amount as int,
            d.lifetime_deposited_tokens as int,
            c.max_collectable_tokens as int,
        );
    }
}

/// A commit is accepted only when every account is the one the collection
/// records, the user gives the collection's terms hash, the commitment keeps
/// the collected count within the cap, and one group of three accounts comes
/// for each registered distribution.
pub proof fn accepted_commit_meets_every_rule(
    accounts: UserCommitAndClaimStateless,
    remaining: Seq<crate::claim::RemainingAccount>,
    program_id: Pubkey,
    amount: u64,
    terms_hash: [u8; TERMS_HASH_LEN],
)
    requires
        commit_and_claim_refusal(accounts, remaining, program_id, amount, terms_hash) is None,
    ensures
        accounts.mint == accounts.collection.mint,
        accounts.user_token_account.mint == accounts.collection.mint,
        accounts.vault == accounts.collection.vault,
        accounts.replacement_mint == accounts.collection.replacement_mint,
        terms_hash@ == accounts.collection.terms_hash@,
        accounts.collection.lifetime_tokens_collected + amount <= accounts.collection.max_collectable_tokens,
        remaining.len() == 3 * accounts.collection.num_distributions,
{
}

/// Why a commit is refused, in the order the checks run: an account that is
/// not the collection's, then a wrong terms hash (both before any token call),
/// then, after taking the tokens and minting replacements, an overflowing or
/// over-the-cap collected count, then remaining accounts not in groups of
/// three, then the wrong number of groups.
pub proof fn commit_refusal_reasons(
    accounts: UserCommitAndClaimStateless,
    remaining: Seq<crate::claim::RemainingAccount>,
    program_id: Pubkey,
    amount: u64,
    terms_hash: [u8; TERMS_HASH_LEN],
)
    ensures
        ({
            let c = accounts.collection;
            let refusal = commit_and_claim_refusal(accounts, remaining, program_id, amount, terms_hash);
            let accounts_ok = accounts.mint == c.mint && accounts.user_token_account.mint == c.mint
                && accounts.vault == c.vault && accounts.replacement_mint == c.replacement_mint;
            let taken = seq![commit_call(accounts, amount), mint_call(accounts, amount)];
            &&& accounts.mint != c.mint ==> refusal == Some((Error::ConstraintAddress, Seq::<TokenCall>::empty()))
            &&& accounts.mint == c.mint && accounts.user_token_account.mint != c.mint ==> refusal == Some(
                (Error::ConstraintTokenMint, Seq::<TokenCall>::empty()),
            )
            &&& accounts.mint == c.mint && accounts.user_token_account.mint == c.mint && (accounts.vault
                != c.vault || accounts.replacement_mint != c.replacement_mint) ==> refusal == Some(
                (Error::ConstraintAddress, Seq::<TokenCall>::empty()),
            )
            &&& accounts_ok && terms_hash@ != c.terms_hash@ ==> refusal == Some(
                (Error::Program(ErrorCode::TermsHashMismatch), Seq::<TokenCall>::empty()),
            )
            &&& accounts_ok && terms_hash@ == c.terms_hash@ && c.lifetime_tokens_collected + amount
                > u64::MAX ==> refusal == Some((Error::Program(ErrorCode::Overflow), taken))
            &&& accounts_ok && terms_hash@ == c.terms_hash@ && c.lifetime_tokens_collected + amount
                <= u64::MAX && c.lifetime_tokens_collected + amount > c.max_collectable_tokens
                ==> refusal == Some((Error::Program(ErrorCode::MaxCollectableTokensExceeded), taken))
            &&& accounts_ok && terms_hash@ == c.terms_hash@ && c.lifetime_tokens_collected + amount
                <= c.max_collectable_tokens && remaining.len() % 3 != 0 ==> refusal == Some(
                (Error::Program(ErrorCode::InvalidRemainingAccounts), taken),
            )
            &&& accounts_ok && terms_hash@ == c.terms_hash@ && c.lifetime_tokens_collected + amount
                <= c.max_collectable_tokens && remaining.len() % 3 == 0 && remaining.len() != 3
                * c.num_distributions ==> refusal == Some(
                (Error::Program(ErrorCode::DistributionsMismatch), taken),
            )
        }),
{
}

/// A new collection is refused exactly when the replacement mint breaks one of
/// its rules (no supply, the signer as mint authority, no freeze authority, the
/// collected mint's decimals), each with its own error in that order.
pub proof fn replacement_mint_rules(accounts: InitCollection)
    ensures
        ({
            let r = accounts.replacement_mint;
            let authority_ok = r.mint_authority matches Some(a) && a == accounts.authority;
            &&& accounts.constraint_error() is None <==> (r.supply == 0 && authority_ok
                && r.freeze_authority is None && r.decimals == accounts.mint.decimals)
            &&& r.supply != 0 ==> accounts.constraint_error() == Some(
                Error::Program(ErrorCode::ReplacementMintHasSupply),
            )
            &&& r.supply == 0 && !authority_ok ==> accounts.constraint_error() == Some(
                Error::Program(ErrorCode::ReplacementMintAuthorityMismatch),
            )
            &&& r.supply == 0 && authority_ok && r.freeze_authority is Some
                ==> accounts.constraint_error() == Some(
                Error::Program(ErrorCode::ReplacementMintHasFreezeAuthority),
            )
            &&& r.supply == 0 && authority_ok && r.freeze_authority is None && r.decimals
                != accounts.mint.decimals ==> accounts.constraint_error() == Some(
                Error::Program(ErrorCode::ReplacementMintDecimalsMismatch),
            )
        }),
{
}

/// A withdrawal is accepted only from the collection's authority, out of the
/// collection's vault, for the collection's mint, into an account of that mint.
pub proof fn withdrawal_account_rules(accounts: WithdrawFromCollection)
    ensures
        accounts.constraint_error() is None <==> (accounts.mint == accounts.collection.mint
            && accounts.vault.key == accounts.collection.vault
            && accounts.authority_token_account.mint == accounts.collection.mint
            && accounts.authority == accounts.collection.authority),
        accounts.constraint_error() matches Some(e) ==> (e == Error::ConstraintAddress || e
            == Error::ConstraintTokenMint),
        accounts.mint == accounts.collection.mint && accounts.vault.key == accounts.collection.vault
            && accounts.authority_token_account.mint != accounts.mint ==> accounts.constraint_error()
            == Some(Error::ConstraintTokenMint),
{
}

/// Only the collection's authority may register a distribution.
pub proof fn registration_account_rules(accounts: InitDistribution)
    ensures
        accounts.constraint_error() is None <==> accounts.authority == accounts.collection.authority,
        accounts.constraint_error() is Some ==> accounts.constraint_error() == Some(
            Error::ConstraintAddress,
        ),
{
}

/// A deposit is accepted only into the distribution's own vault, from an
/// account of the vault's mint.
pub proof fn deposit_account_rules(accounts: AddDistributionTokens)
    ensures
        accounts.constraint_error() is None <==> (accounts.vault.key == accounts.distribution.vault
            && accounts.depositor_token_account.mint == accounts.vault.mint),
        accounts.vault.key != accounts.distribution.vault ==> accounts.constraint_error() == Some(
            Error::ConstraintAddress,
        ),
        accounts.vault.key == accounts.distribution.vault && accounts.depositor_token_account.mint
            != accounts.vault.mint ==> accounts.constraint_error() == Some(Error::ConstraintTokenMint),
{
}

} // verus!
