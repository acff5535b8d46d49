use multidistribute::accounts::{
    AddDistributionTokens, InitCollection, InitDistribution, MintAccount, TokenAccount,
    UserCommitAndClaimStateless, WithdrawFromCollection,
};
use multidistribute::claim::{user_commit_and_claim_stateless, RemainingAccount};
use multidistribute::instructions::{
    add_distribution_tokens, init_collection, init_distribution, withdraw_from_collection,
};
use multidistribute::key::Pubkey;
use multidistribute::share::user_share;
use multidistribute::state::{Collection, DecodeError, Distribution, Error, ErrorCode, MAX_DISTRIBUTIONS};
use multidistribute::token::{Signer, TokenCall, TokenInstruction};

fn key(n: u8) -> Pubkey {
    Pubkey::new([n; 32])
}

const AUTHORITY: u8 = 1;
const MINT: u8 = 2;
const VAULT: u8 = 3;
const REPLACEMENT: u8 = 4;
const COLLECTION: u8 = 5;
const USER: u8 = 6;
const USER_TOKENS: u8 = 7;
const USER_REPLACEMENT: u8 = 8;
const PROGRAM: u8 = 9;
const TERMS: [u8; 32] = [42; 32];

fn mint(k: u8, supply: u64, decimals: u8, authority: Option<Pubkey>) -> MintAccount {
    MintAccount { key: key(k), supply, decimals, mint_authority: authority, freeze_authority: None }
}

fn init_accounts() -> InitCollection {
    InitCollection {
        collection: key(COLLECTION),
        collection_bump: 254,
        mint: mint(MINT, 1000, 6, None),
        vault: key(VAULT),
        replacement_mint: mint(REPLACEMENT, 0, 6, Some(key(AUTHORITY))),
        authority: key(AUTHORITY),
    }
}

fn new_collection(burn_on_deposit: bool, burn_instead_of_withdraw: bool) -> Collection {
    init_collection(&init_accounts(), 7, burn_on_deposit, burn_instead_of_withdraw, TERMS)
        .unwrap()
        .collection
}

fn distribution_key(i: usize) -> Pubkey {
    key(100 + i as u8)
}

fn distribution_vault(i: usize) -> Pubkey {
    key(150 + i as u8)
}

fn user_dist_account(i: usize) -> Pubkey {
    key(200 + i as u8)
}

fn register(c: Collection, i: usize) -> (Collection, Distribution) {
    let out = init_distribution(&InitDistribution {
        distribution: distribution_key(i),
        distribution_bump: 250,
        collection_key: key(COLLECTION),
        collection: c,
        mint: key(50 + i as u8),
        vault: distribution_vault(i),
        authority: key(AUTHORITY),
    })
    .unwrap();
    (out.collection, out.distribution)
}

fn deposit(d: Distribution, i: usize, amount: u64) -> Distribution {
    add_distribution_tokens(
        &AddDistributionTokens {
            distribution_key: distribution_key(i),
            distribution: d,
            vault: TokenAccount { key: distribution_vault(i), mint: key(50 + i as u8), amount: 0 },
            depositor_token_account: TokenAccount { key: key(60), mint: key(50 + i as u8), amount: amount },
            depositor: key(61),
        },
        amount,
    )
    .unwrap()
    .distribution
}

fn commit_accounts(c: Collection) -> UserCommitAndClaimStateless {
    UserCommitAndClaimStateless {
        collection_key: key(COLLECTION),
        collection: c,
        mint: key(MINT),
        user_token_account: TokenAccount { key: key(USER_TOKENS), mint: key(MINT), amount: 500 },
        vault: key(VAULT),
        replacement_mint: key(REPLACEMENT),
        user_replacement_token_account: key(USER_REPLACEMENT),
        user: key(USER),
    }
}

fn remaining_for(ds: &[Distribution]) -> Vec<RemainingAccount> {
    let mut r = Vec::new();
    for (i, d) in ds.iter().enumerate() {
        r.push(RemainingAccount { key: distribution_key(i), owner: key(PROGRAM), distribution: Ok(*d) });
        r.push(RemainingAccount {
            key: distribution_vault(i),
            owner: key(70),
            distribution: Err(DecodeError::AccountDiscriminatorMismatch),
        });
        r.push(RemainingAccount {
            key: user_dist_account(i),
            owner: key(70),
            distribution: Err(DecodeError::AccountDiscriminatorMismatch),
        });
    }
    r
}

#[test]
fn init_collection_sets_up_collection() {
    let out = init_collection(&init_accounts(), 7, true, false, TERMS).unwrap();
    let c = out.collection;
    assert_eq!(c.authority, key(AUTHORITY));
    assert_eq!(c.lifetime_tokens_collected, 0);
    assert_eq!(c.max_collectable_tokens, 1000);
    assert_eq!(c.mint, key(MINT));
    assert_eq!(c.vault, key(VAULT));
    assert_eq!(c.replacement_mint, key(REPLACEMENT));
    assert_eq!(c.bump, 254);
    assert_eq!(c.counter, 7);
    assert!(c.burn_on_deposit);
    assert!(!c.burn_instead_of_withdraw);
    assert_eq!(c.terms_hash, TERMS);
    assert_eq!(c.num_distributions, 0);
    assert!(c.distributions.iter().all(|k| *k == Pubkey::zeroed()));
    assert_eq!(
        out.set_authority,
        TokenCall {
            instruction: TokenInstruction::SetMintAuthority {
                mint: key(REPLACEMENT),
                current_authority: key(AUTHORITY),
                new_authority: key(COLLECTION),
            },
            signer: Signer::Wallet,
        }
    );
}

#[test]
fn init_collection_refuses_zero_supply() {
    let mut a = init_accounts();
    a.mint.supply = 0;
    assert_eq!(
        init_collection(&a, 0, false, false, TERMS).err(),
        Some(Error::Program(ErrorCode::InvalidMaxCollectableTokens))
    );
}

#[test]
fn init_collection_checks_replacement_mint() {
    let mut a = init_accounts();
    a.replacement_mint.supply = 1;
    assert_eq!(
        init_collection(&a, 0, false, false, TERMS).err(),
        Some(Error::Program(ErrorCode::ReplacementMintHasSupply))
    );
    let mut a = init_accounts();
    a.replacement_mint.mint_authority = Some(key(99));
    assert_eq!(
        init_collection(&a, 0, false, false, TERMS).err(),
        Some(Error::Program(ErrorCode::ReplacementMintAuthorityMismatch))
    );
    let mut a = init_accounts();
    a.replacement_mint.mint_authority = None;
    assert_eq!(
        init_collection(&a, 0, false, false, TERMS).err(),
        Some(Error::Program(ErrorCode::ReplacementMintAuthorityMismatch))
    );
    let mut a = init_accounts();
    a.replacement_mint.freeze_authority = Some(key(AUTHORITY));
    assert_eq!(
        init_collection(&a, 0, false, false, TERMS).err(),
        Some(Error::Program(ErrorCode::ReplacementMintHasFreezeAuthority))
    );
    let mut a = init_accounts();
    a.replacement_mint.decimals = 9;
    assert_eq!(
        init_collection(&a, 0, false, false, TERMS).err(),
        Some(Error::Program(ErrorCode::ReplacementMintDecimalsMismatch))
    );
}

fn withdraw_accounts(c: Collection) -> WithdrawFromCollection {
    WithdrawFromCollection {
        collection_key: key(COLLECTION),
        collection: c,
        mint: key(MINT),
        vault: TokenAccount { key: key(VAULT), mint: key(MINT), amount: 321 },
        authority_token_account: TokenAccount { key: key(80), mint: key(MINT), amount: 0 },
        authority: key(AUTHORITY),
    }
}

#[test]
fn withdraw_transfers_whole_vault_to_authority() {
    let c = new_collection(false, false);
    let call = withdraw_from_collection(&withdraw_accounts(c)).unwrap();
    assert_eq!(
        call.instruction,
        TokenInstruction::Transfer { from: key(VAULT), to: key(80), authority: key(COLLECTION), amount: 321 }
    );
    assert_eq!(
        call.signer,
        Signer::Collection { authority: key(AUTHORITY), mint: key(MINT), counter: 7, bump: 254 }
    );
}

#[test]
fn withdraw_burns_when_configured() {
    let c = new_collection(false, true);
    let call = withdraw_from_collection(&withdraw_accounts(c)).unwrap();
    assert_eq!(
        call.instruction,
        TokenInstruction::Burn { mint: key(MINT), from: key(VAULT), authority: key(COLLECTION), amount: 321 }
    );
}

#[test]
fn withdraw_checks_accounts() {
    let c = new_collection(false, false);
    let mut a = withdraw_accounts(c);
    a.authority = key(99);
    assert_eq!(withdraw_from_collection(&a).err(), Some(Error::ConstraintAddress));
    let mut a = withdraw_accounts(c);
    a.vault.key = key(99);
    assert_eq!(withdraw_from_collection(&a).err(), Some(Error::ConstraintAddress));
    let mut a = withdraw_accounts(c);
    a.mint = key(99);
    assert_eq!(withdraw_from_collection(&a).err(), Some(Error::ConstraintAddress));
    let mut a = withdraw_accounts(c);
    a.authority_token_account.mint = key(99);
    assert_eq!(withdraw_from_collection(&a).err(), Some(Error::ConstraintTokenMint));
}

#[test]
fn init_distribution_registers_in_order() {
    let c = new_collection(false, false);
    let (c, d0) = register(c, 0);
    let (c, _) = register(c, 1);
    assert_eq!(c.num_distributions, 2);
    assert_eq!(c.distributions[0], distribution_key(0));
    assert_eq!(c.distributions[1], distribution_key(1));
    assert_eq!(c.distributions[2], Pubkey::zeroed());
    assert_eq!(d0.collection, key(COLLECTION));
    assert_eq!(d0.lifetime_deposited_tokens, 0);
    assert_eq!(d0.distributed_tokens, 0);
    assert_eq!(d0.vault, distribution_vault(0));
    assert_eq!(d0.mint, key(50));
    assert_eq!(d0.bump, 250);
}

#[test]
fn init_distribution_stops_at_max() {
    let mut c = new_collection(false, false);
    for i in 0..MAX_DISTRIBUTIONS {
        c = register(c, i).0;
    }
    assert_eq!(c.num_distributions as usize, MAX_DISTRIBUTIONS);
    let r = init_distribution(&InitDistribution {
        distribution: key(99),
        distribution_bump: 1,
        collection_key: key(COLLECTION),
        collection: c,
        mint: key(98),
        vault: key(97),
        authority: key(AUTHORITY),
    });
    assert_eq!(r.err(), Some(Error::Program(ErrorCode::MaxDistributionsExceeded)));
}

#[test]
fn init_distribution_requires_collection_authority() {
    let c = new_collection(false, false);
    let r = init_distribution(&InitDistribution {
        distribution: key(99),
        distribution_bump: 1,
        collection_key: key(COLLECTION),
        collection: c,
        mint: key(98),
        vault: key(97),
        authority: key(USER),
    });
    assert_eq!(r.err(), Some(Error::ConstraintAddress));
}

#[test]
fn add_tokens_counts_deposit() {
    let c = new_collection(false, false);
    let (_, d) = register(c, 0);
    let accounts = AddDistributionTokens {
        distribution_key: distribution_key(0),
        distribution: d,
        vault: TokenAccount { key: distribution_vault(0), mint: key(50), amount: 0 },
        depositor_token_account: TokenAccount { key: key(60), mint: key(50), amount: 10 },
        depositor: key(61),
    };
    let out = add_distribution_tokens(&accounts, 10).unwrap();
    assert_eq!(out.distribution.lifetime_deposited_tokens, 10);
    assert_eq!(
        out.transfer,
        TokenCall {
            instruction: TokenInstruction::Transfer {
                from: key(60),
                to: distribution_vault(0),
                authority: key(61),
                amount: 10,
            },
            signer: Signer::Wallet,
        }
    );
}

#[test]
fn add_tokens_overflow_after_transfer() {
    let c = new_collection(false, false);
    let (_, mut d) = register(c, 0);
    d.lifetime_deposited_tokens = u64::MAX;
    let accounts = AddDistributionTokens {
        distribution_key: distribution_key(0),
        distribution: d,
        vault: TokenAccount { key: distribution_vault(0), mint: key(50), amount: 0 },
        depositor_token_account: TokenAccount { key: key(60), mint: key(50), amount: 10 },
        depositor: key(61),
    };
    let rej = add_distribution_tokens(&accounts, 1).unwrap_err();
    assert_eq!(rej.error, Error::Program(ErrorCode::Overflow));
    assert_eq!(rej.calls.len(), 1);
    let mut bad = accounts;
    bad.vault.key = key(99);
    let rej = add_distribution_tokens(&bad, 1).unwrap_err();
    assert_eq!(rej.error, Error::ConstraintAddress);
    assert!(rej.calls.is_empty());
    let mut bad = accounts;
    bad.depositor_token_account.mint = key(99);
    assert_eq!(add_distribution_tokens(&bad, 1).unwrap_err().error, Error::ConstraintTokenMint);
}

fn setup(burn: bool) -> (Collection, Vec<Distribution>) {
    let c = new_collection(burn, false);
    let (c, d0) = register(c, 0);
    let (c, d1) = register(c, 1);
    (c, vec![deposit(d0, 0, 5000), deposit(d1, 1, 7)])
}

#[test]
fn commit_and_claim_pays_proportional_shares() {
    let (c, ds) = setup(false);
    let out = user_commit_and_claim_stateless(
        &commit_accounts(c),
        &remaining_for(&ds),
        &key(PROGRAM),
        100,
        TERMS,
    )
    .unwrap();
    assert_eq!(out.collection.lifetime_tokens_collected, 100);
    assert_eq!(
        out.commit.instruction,
        TokenInstruction::Transfer { from: key(USER_TOKENS), to: key(VAULT), authority: key(USER), amount: 100 }
    );
    assert_eq!(out.commit.signer, Signer::Wallet);
    assert_eq!(
        out.mint_replacement.instruction,
        TokenInstruction::MintTo {
            mint: key(REPLACEMENT),
            to: key(USER_REPLACEMENT),
            authority: key(COLLECTION),
            amount: 100,
        }
    );
    assert_eq!(out.claims.len(), 2);
    // 100 * 5000 / 1000 = 500
    assert_eq!(out.claims[0].user_share, 500);
    assert_eq!(out.claims[0].distribution.distributed_tokens, 500);
    // 100 * 7 / 1000 = 0.7, rounded down
    assert_eq!(out.claims[1].user_share, 0);
    assert_eq!(
        out.claims[0].transfer,
        TokenCall {
            instruction: TokenInstruction::Transfer {
                from: distribution_vault(0),
                to: user_dist_account(0),
                authority: distribution_key(0),
                amount: 500,
            },
            signer: Signer::Distribution { collection: key(COLLECTION), mint: key(50), bump: 250 },
        }
    );
}

#[test]
fn commit_burns_when_configured() {
    let (c, ds) = setup(true);
    let out = user_commit_and_claim_stateless(&commit_accounts(c), &remaining_for(&ds), &key(PROGRAM), 10, TERMS)
        .unwrap();
    assert_eq!(
        out.commit.instruction,
        TokenInstruction::Burn { mint: key(MINT), from: key(USER_TOKENS), authority: key(USER), amount: 10 }
    );
}

fn refused(c: Collection, remaining: &Vec<RemainingAccount>, amount: u64, terms: [u8; 32]) -> (Error, usize) {
    let rej = user_commit_and_claim_stateless(&commit_accounts(c), remaining, &key(PROGRAM), amount, terms)
        .unwrap_err();
    (rej.error, rej.calls.len())
}

#[test]
fn commit_requires_matching_terms_hash() {
    let (c, ds) = setup(false);
    assert_eq!(
        refused(c, &remaining_for(&ds), 1, [0; 32]),
        (Error::Program(ErrorCode::TermsHashMismatch), 0)
    );
}

#[test]
fn commit_refuses_beyond_cap() {
    let (c, ds) = setup(false);
    assert_eq!(
        refused(c, &remaining_for(&ds), 1001, TERMS),
        (Error::Program(ErrorCode::MaxCollectableTokensExceeded), 2)
    );
    let mut c2 = c;
    c2.lifetime_tokens_collected = u64::MAX;
    assert_eq!(refused(c2, &remaining_for(&ds), 1, TERMS), (Error::Program(ErrorCode::Overflow), 2));
}

#[test]
fn commit_checks_remaining_accounts() {
    let (c, ds) = setup(false);
    let mut r = remaining_for(&ds);
    r.pop();
    assert_eq!(refused(c, &r, 1, TERMS), (Error::Program(ErrorCode::InvalidRemainingAccounts), 2));
    let r = remaining_for(&ds[..1]);
    assert_eq!(refused(c, &r, 1, TERMS), (Error::Program(ErrorCode::DistributionsMismatch), 2));
    let mut r = remaining_for(&ds);
    r.swap(0, 3);
    assert_eq!(refused(c, &r, 1, TERMS), (Error::Program(ErrorCode::DistributionsMismatch), 2));
    let mut r = remaining_for(&ds);
    r[3].owner = key(99);
    assert_eq!(refused(c, &r, 100, TERMS), (Error::Program(ErrorCode::InvalidDistributionOwner), 3));
    let mut r = remaining_for(&ds);
    for e in [
        DecodeError::AccountDiscriminatorNotFound,
        DecodeError::AccountDiscriminatorMismatch,
        DecodeError::AccountDidNotDeserialize,
    ] {
        r[3].distribution = Err(e);
        assert_eq!(refused(c, &r, 100, TERMS), (Error::AccountData(e), 3));
    }
    let mut r = remaining_for(&ds);
    r[3].distribution.as_mut().unwrap().collection = key(99);
    assert_eq!(refused(c, &r, 100, TERMS), (Error::Program(ErrorCode::DistributionCollectionMismatch), 3));
    let mut r = remaining_for(&ds);
    r[4].key = key(99);
    assert_eq!(refused(c, &r, 100, TERMS), (Error::Program(ErrorCode::InvalidDistributionVault), 3));
    let mut r = remaining_for(&ds);
    r[0].distribution.as_mut().unwrap().distributed_tokens = u64::MAX;
    assert_eq!(refused(c, &r, 100, TERMS), (Error::Program(ErrorCode::Overflow), 2));
}

#[test]
fn commit_checks_named_accounts() {
    let (c, ds) = setup(false);
    let r = remaining_for(&ds);
    let mut a = commit_accounts(c);
    a.vault = key(99);
    let rej = user_commit_and_claim_stateless(&a, &r, &key(PROGRAM), 1, TERMS).unwrap_err();
    assert_eq!(rej.error, Error::ConstraintAddress);
    let mut a = commit_accounts(c);
    a.user_token_account.mint = key(99);
    let rej = user_commit_and_claim_stateless(&a, &r, &key(PROGRAM), 1, TERMS).unwrap_err();
    assert_eq!(rej.error, Error::ConstraintTokenMint);
    let mut a = commit_accounts(c);
    a.replacement_mint = key(99);
    let rej = user_commit_and_claim_stateless(&a, &r, &key(PROGRAM), 1, TERMS).unwrap_err();
    assert_eq!(rej.error, Error::ConstraintAddress);
}

#[test]
fn zero_cap_divides_by_zero() {
    let (mut c, ds) = setup(false);
    c.max_collectable_tokens = 0;
    assert_eq!(refused(c, &remaining_for(&ds), 0, TERMS), (Error::Program(ErrorCode::Overflow), 2));
}

#[test]
fn repeated_distribution_reads_its_own_update() {
    let (mut c, ds) = setup(false);
    c.distributions[1] = distribution_key(0);
    let mut r = remaining_for(&ds);
    r[3].key = distribution_key(0);
    r[4].key = distribution_vault(0);
    // the stale copy in the second group is not what the program reads
    r[3].distribution = Err(DecodeError::AccountDidNotDeserialize);
    let out = user_commit_and_claim_stateless(&commit_accounts(c), &r, &key(PROGRAM), 100, TERMS).unwrap();
    assert_eq!(out.claims[0].distribution.distributed_tokens, 500);
    assert_eq!(out.claims[1].distribution.distributed_tokens, 1000);
}

#[test]
fn no_distributions_still_commits() {
    let c = new_collection(false, false);
    let out = user_commit_and_claim_stateless(&commit_accounts(c), &Vec::new(), &key(PROGRAM), 1000, TERMS)
        .unwrap();
    assert_eq!(out.collection.lifetime_tokens_collected, 1000);
    assert!(out.claims.is_empty());
}

#[test]
fn distributions_never_pay_more_than_deposited() {
    let (mut c, mut ds) = setup(false);
    let amounts = [333u64, 1, 1, 250, 415];
    for (round, amount) in amounts.iter().enumerate() {
        if round == 2 {
            ds[1] = deposit(ds[1], 1, 9000);
        }
        let out =
            user_commit_and_claim_stateless(&commit_accounts(c), &remaining_for(&ds), &key(PROGRAM), *amount, TERMS)
                .unwrap();
        c = out.collection;
        for (i, cl) in out.claims.iter().enumerate() {
            ds[i] = cl.distribution;
            let d = ds[i];
            assert!(d.distributed_tokens <= d.lifetime_deposited_tokens);
            assert!(
                (d.distributed_tokens as u128) * (c.max_collectable_tokens as u128)
                    <= (c.lifetime_tokens_collected as u128) * (d.lifetime_deposited_tokens as u128)
            );
        }
    }
    assert_eq!(c.lifetime_tokens_collected, 1000);
    assert_eq!(ds[0].distributed_tokens, 1665 + 5 + 5 + 1250 + 2075);
    let (e, _) = refused(c, &remaining_for(&ds), 1, TERMS);
    assert_eq!(e, Error::Program(ErrorCode::MaxCollectableTokensExceeded));
}

#[test]
fn user_share_formula() {
    assert_eq!(user_share(100, 5000, 1000), Some(500));
    assert_eq!(user_share(3, 10, 4), Some(7));
    assert_eq!(user_share(5, 5, 0), None);
    assert_eq!(user_share(0, 0, 0), None);
    // beyond the cap the 128-bit quotient is cut to 64 bits
    assert_eq!(user_share(u64::MAX, u64::MAX, 1), Some(1));
}

#[test]
fn split_commit_gains_nothing() {
    let whole = user_share(2, 1, 2).unwrap();
    let parts = user_share(1, 1, 2).unwrap() + user_share(1, 1, 2).unwrap();
    assert_eq!((whole, parts), (1, 0));
    let whole = user_share(7, 9, 10).unwrap();
    let parts = user_share(3, 9, 10).unwrap() + user_share(4, 9, 10).unwrap();
    assert!(parts <= whole);
}

#[test]
fn signer_seeds_bytes() {
    let s = Signer::Collection { authority: key(1), mint: key(2), counter: 0x0102, bump: 254 }.seeds();
    assert_eq!(s.len(), 5);
    assert_eq!(s[0], b"collection".to_vec());
    assert_eq!(s[1], vec![1u8; 32]);
    assert_eq!(s[2], vec![2u8; 32]);
    assert_eq!(s[3], vec![2, 1, 0, 0, 0, 0, 0, 0]);
    assert_eq!(s[4], vec![254]);
    let s = Signer::Distribution { collection: key(5), mint: key(6), bump: 3 }.seeds();
    assert_eq!(s, vec![b"distribution".to_vec(), vec![5u8; 32], vec![6u8; 32], vec![3]]);
    assert!(Signer::Wallet.seeds().is_empty());
}

#[test]
fn pubkey_equality() {
    assert!(key(3).equals(&key(3)));
    let mut b = [3u8; 32];
    b[31] = 4;
    assert!(!key(3).equals(&Pubkey::new(b)));
    assert_eq!(Pubkey::zeroed().to_bytes(), [0u8; 32]);
}

#[test]
fn collection_configuration_survives_history() {
    let start = new_collection(false, false);
    let (c, d0) = register(start, 0);
    let d0 = deposit(d0, 0, 1000);
    let out = user_commit_and_claim_stateless(&commit_accounts(c), &remaining_for(&[d0]), &key(PROGRAM), 400, TERMS)
        .unwrap();
    let end = out.collection;
    assert_eq!(end.authority, start.authority);
    assert_eq!(end.max_collectable_tokens, start.max_collectable_tokens);
    assert_eq!(end.mint, start.mint);
    assert_eq!(end.vault, start.vault);
    assert_eq!(end.replacement_mint, start.replacement_mint);
    assert_eq!((end.bump, end.counter), (start.bump, start.counter));
    assert_eq!(end.terms_hash, start.terms_hash);
    assert_eq!(end.num_distributions, 1);
    assert!(end.distributions[1..].iter().all(|k| *k == Pubkey::zeroed()));
    match out.mint_replacement.instruction {
        TokenInstruction::MintTo { amount, .. } => assert_eq!(amount, end.lifetime_tokens_collected),
        _ => panic!("replacement tokens are minted"),
    }
}

#[test]
fn split_commit_pays_no_more_than_whole() {
    let (c, ds) = setup(false);
    let first = user_commit_and_claim_stateless(&commit_accounts(c), &remaining_for(&ds), &key(PROGRAM), 3, TERMS)
        .unwrap();
    let mid: Vec<Distribution> = first.claims.iter().map(|cl| cl.distribution).collect();
    let second =
        user_commit_and_claim_stateless(&commit_accounts(first.collection), &remaining_for(&mid), &key(PROGRAM), 4, TERMS)
            .unwrap();
    let whole = user_commit_and_claim_stateless(&commit_accounts(c), &remaining_for(&ds), &key(PROGRAM), 7, TERMS)
        .unwrap();
    assert_eq!(second.collection.lifetime_tokens_collected, whole.collection.lifetime_tokens_collected);
    // 3 * 5000 / 1000 + 4 * 5000 / 1000 == 35 == 7 * 5000 / 1000; for the other 3*7/1000 + 4*7/1000 == 0
    for i in 0..2 {
        assert!(second.claims[i].distribution.distributed_tokens <= whole.claims[i].distribution.distributed_tokens);
    }
    assert_eq!(user_share(1, 3, 2).unwrap() + user_share(1, 3, 2).unwrap(), 2);
    assert_eq!(user_share(2, 3, 2).unwrap(), 3);
}
