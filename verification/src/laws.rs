use vstd::prelude::*;

use crate::accounts::{InitCollection, InitDistribution, UserCommitAndClaimStateless};
use crate::claim::{
    claim_group, claim_run, commit_and_claim_payouts, commit_and_claim_refusal, committed,
    mint_call, paid_out, state_before, Claim, RemainingAccount,
};
use crate::instructions::{deposited, initial_distribution, is_initial_collection, registers};
use crate::key::{zero_key_bytes, Pubkey};
use crate::share::{
    lemma_share_is_floor, lemma_share_monotone, lemma_share_within_deposit,
    lemma_split_commit_gains_nothing, share_of,
};
use crate::token::TokenInstruction;
use crate::state::{Collection, DecodeError, Distribution, MAX_DISTRIBUTIONS, TERMS_HASH_LEN};

verus! {

/// A distribution is solvent against its collection when the collection has
/// not taken in more than its cap, and the distribution has handed out no more
/// than the collected fraction of the cap entitles the committers to:
/// `distributed * cap <= collected * deposited`.
pub open spec fn solvent(c: Collection, d: Distribution) -> bool {
    &&& c.lifetime_tokens_collected <= c.max_collectable_tokens
    &&& d.distributed_tokens * c.max_collectable_tokens <= c.lifetime_tokens_collected
        * d.lifetime_deposited_tokens
}

/// A solvent distribution never hands out more tokens than were deposited into it.
pub proof fn solvent_distribution_pays_at_most_deposits(c: Collection, d: Distribution)
    requires
        solvent(c, d),
        c.max_collectable_tokens > 0,
    ensures
        d.distributed_tokens <= d.lifetime_deposited_tokens,
{
    let dist = d.distributed_tokens as int;
    let dep = d.lifetime_deposited_tokens as int;
    let col = c.lifetime_tokens_collected as int;
    let cap = c.max_collectable_tokens as int;
    assert(dist <= dep) by (nonlinear_arith)
        requires
            dist * cap <= col * dep,
            0 <= col <= cap,
            0 <= dep,
            0 <= dist,
            0 < cap,
    {
        assert(col * dep <= cap * dep);
        if dist > dep {
            assert(dist * cap > dep * cap);
        }
    }
}

/// The parts of a collection that are fixed when it is created.
pub open spec fn same_configuration(a: Collection, b: Collection) -> bool {
    &&& a.authority == b.authority
    &&& a.max_collectable_tokens == b.max_collectable_tokens
    &&& a.mint == b.mint
    &&& a.vault == b.vault
    &&& a.replacement_mint == b.replacement_mint
    &&& a.bump == b.bump
    &&& a.counter == b.counter
    &&& a.burn_on_deposit == b.burn_on_deposit
    &&& a.burn_instead_of_withdraw == b.burn_instead_of_withdraw
    &&& a.terms_hash == b.terms_hash
}

/// The registry is within its slots and every unused slot holds the zero address.
pub open spec fn registry_clean(c: Collection) -> bool {
    &&& c.wf()
    &&& forall|i: int|
        c.num_distributions <= i < MAX_DISTRIBUTIONS ==> (#[trigger] c.distributions@[i])@
            == zero_key_bytes()
}

/// How a collection may change from `a` to `b`: its configuration is kept, the
/// collected count only grows and stays within the cap, and distributions are
/// only ever appended to the registry.
pub open spec fn evolves(a: Collection, b: Collection) -> bool {
    &&& same_configuration(a, b)
    &&& a.lifetime_tokens_collected <= b.lifetime_tokens_collected <= b.max_collectable_tokens
    &&& a.num_distributions <= b.num_distributions
    &&& b.wf()
    &&& b.distributions@.take(a.num_distributions as int) == a.distributions@.take(
        a.num_distributions as int,
    )
}

/// A collection within its cap may stay as it is (withdrawals and deposits leave it so).
pub proof fn evolution_is_reflexive(c: Collection)
    requires
        c.wf(),
        c.lifetime_tokens_collected <= c.max_collectable_tokens,
    ensures
        evolves(c, c),
{
}

/// Changes compose: over any sequence of instructions the configuration is
/// kept, the collected count never falls nor passes the cap, and registered
/// distributions stay registered where they are.
pub proof fn evolution_composes(a: Collection, b: Collection, c: Collection)
    requires
        evolves(a, b),
        evolves(b, c),
    ensures
        evolves(a, c),
{
    broadcast use vstd::array::array_len_matches_n;

    assert(c.distributions@.len() == MAX_DISTRIBUTIONS);
    assert(b.distributions@.len() == MAX_DISTRIBUTIONS);
    let n = a.num_distributions as int;
    assert(c.distributions@.take(n) =~= c.distributions@.take(b.num_distributions as int).take(n));
    assert(b.distributions@.take(n) =~= b.distributions@.take(b.num_distributions as int).take(n));
}

/// A distribution that is solvent stays solvent while its collection changes
/// around it: the collected count only grows and the cap is fixed.
pub proof fn solvency_survives_collection_changes(c: Collection, after: Collection, d: Distribution)
    requires
        solvent(c, d),
        evolves(c, after),
    ensures
        solvent(after, d),
{
    let dep = d.lifetime_deposited_tokens as int;
    assert(c.lifetime_tokens_collected * dep <= after.lifetime_tokens_collected * dep) by (
    nonlinear_arith)
        requires
            c.lifetime_tokens_collected <= after.lifetime_tokens_collected,
            0 <= dep,
    ;
}

/// Registering a distribution is such a change, and keeps the unused slots zero.
pub proof fn registering_evolves(accounts: InitDistribution, after: Collection)
    requires
        accounts.collection.wf(),
        accounts.collection.num_distributions < MAX_DISTRIBUTIONS,
        accounts.collection.lifetime_tokens_collected <= accounts.collection.max_collectable_tokens,
        registers(accounts.collection, after, accounts.distribution),
    ensures
        evolves(accounts.collection, after),
        registry_clean(accounts.collection) ==> registry_clean(after),
{
    let before = accounts.collection;
    let n = before.num_distributions as int;
    assert(after.distributions@.take(n) =~= before.distributions@.take(n));
    if registry_clean(before) {
        assert forall|i: int| after.num_distributions <= i < MAX_DISTRIBUTIONS implies (
        #[trigger] after.distributions@[i])@ == zero_key_bytes() by {
            assert(after.distributions@[i] == before.distributions@[i]);
        }
    }
}

/// An accepted commit is such a change, keeps the registry as it is, and
/// mints exactly as many replacement tokens as it adds to the collected count.
pub proof fn commit_evolves(
    accounts: UserCommitAndClaimStateless,
    remaining: Seq<RemainingAccount>,
    program_id: Pubkey,
    amount: u64,
    terms_hash: [u8; TERMS_HASH_LEN],
)
    requires
        accounts.collection.wf(),
        accounts.collection.lifetime_tokens_collected <= accounts.collection.max_collectable_tokens,
        commit_and_claim_refusal(accounts, remaining, program_id, amount, terms_hash) is None,
    ensures
        ({
            let c = accounts.collection;
            let after = committed(c, amount);
            &&& evolves(c, after)
            &&& after.distributions == c.distributions
            &&& after.num_distributions == c.num_distributions
            &&& registry_clean(c) ==> registry_clean(after)
            &&& mint_call(accounts, amount).instruction matches TokenInstruction::MintTo {
                amount: minted,
                ..
            } && after.lifetime_tokens_collected == c.lifetime_tokens_collected + minted
        }),
{
}

/// A new collection has collected nothing, has a positive cap and no registered distributions.
pub proof fn new_collection_is_valid(
    c: Collection,
    accounts: InitCollection,
    counter: u64,
    burn_on_deposit: bool,
    burn_instead_of_withdraw: bool,
    terms_hash: [u8; TERMS_HASH_LEN],
)
    requires
        is_initial_collection(c, accounts, counter, burn_on_deposit, burn_instead_of_withdraw, terms_hash),
        accounts.mint.supply > 0,
    ensures
        c.wf(),
        c.lifetime_tokens_collected <= c.max_collectable_tokens,
        c.max_collectable_tokens > 0,
        c.registered() == Seq::<Pubkey>::empty(),
        registry_clean(c),
{
    assert(c.registered() =~= Seq::<Pubkey>::empty());
}

/// Registering a distribution keeps the registry within its slots, appends the
/// new address to the registered ones, leaves every solvent distribution
/// solvent, and the new distribution starts solvent.
pub proof fn registering_keeps_solvency(accounts: InitDistribution, after: Collection, d: Distribution)
    requires
        accounts.collection.wf(),
        accounts.collection.num_distributions < MAX_DISTRIBUTIONS,
        accounts.collection.lifetime_tokens_collected <= accounts.collection.max_collectable_tokens,
        registers(accounts.collection, after, accounts.distribution),
    ensures
        after.wf(),
        after.registered() == accounts.collection.registered().push(accounts.distribution),
        solvent(after, initial_distribution(accounts)),
        solvent(accounts.collection, d) ==> solvent(after, d),
{
    assert(after.registered() =~= accounts.collection.registered().push(accounts.distribution));
    let d0 = initial_distribution(accounts);
    let cap = after.max_collectable_tokens as int;
    let col = after.lifetime_tokens_collected as int;
    assert(d0.distributed_tokens == 0 && d0.lifetime_deposited_tokens == 0);
    assert(0 * cap == 0 && col * 0 == 0) by (nonlinear_arith);
}

/// Adding tokens to a distribution keeps it solvent.
pub proof fn deposit_keeps_solvency(c: Collection, d: Distribution, amount: u64)
    requires
        solvent(c, d),
        d.lifetime_deposited_tokens + amount <= u64::MAX,
    ensures
        solvent(c, deposited(d, amount)),
{
    let col = c.lifetime_tokens_collected as int;
    let dep = d.lifetime_deposited_tokens as int;
    assert(col * dep <= col * (dep + amount)) by (nonlinear_arith)
        requires
            0 <= col,
            0 <= amount,
    ;
}

/// One claim keeps a distribution solvent: committing `amount` within the cap
/// and paying out the proportional share.
pub proof fn claim_keeps_solvency(c: Collection, d: Distribution, amount: u64)
    requires
        solvent(c, d),
        c.lifetime_tokens_collected + amount <= c.max_collectable_tokens,
        c.max_collectable_tokens > 0,
        d.distributed_tokens + share_of(
            amount as int,
            d.lifetime_deposited_tokens as int,
            c.max_collectable_tokens as int,
        ) <= u64::MAX,
    ensures
        solvent(
            committed(c, amount),
            paid_out(
                d,
                share_of(
                    amount as int,
                    d.lifetime_deposited_tokens as int,
                    c.max_collectable_tokens as int,
                ) as u64,
            ),
        ),
{
    let cap = c.max_collectable_tokens as int;
    let dep = d.lifetime_deposited_tokens as int;
    let col = c.lifetime_tokens_collected as int;
    let dist = d.distributed_tokens as int;
    let s = share_of(amount as int, dep, cap);
    lemma_share_is_floor(amount as int, dep, cap);
    lemma_share_within_deposit(amount as int, dep, cap);
    assert((dist + s) * cap <= (col + amount) * dep) by (nonlinear_arith)
        requires
            dist * cap <= col * dep,
            s * cap <= amount * dep,
    ;
}

/// An accepted group's payout carries the group's position and registered address.
proof fn lemma_group_names_registry(
    c: Collection,
    collection_key: Pubkey,
    program_id: Pubkey,
    amount: u64,
    remaining: Seq<RemainingAccount>,
    done: Seq<Claim>,
    i: int,
)
    requires
        0 <= i < MAX_DISTRIBUTIONS,
    ensures
        claim_group(c, collection_key, program_id, amount, remaining, done, i) matches Ok(cl) ==> {
            &&& cl.index == i
            &&& cl.distribution_key == c.distributions@[i]
        },
{
}

/// The payouts of the first `n` groups name the registered distributions in order.
pub proof fn lemma_run_follows_registry(
    c: Collection,
    collection_key: Pubkey,
    program_id: Pubkey,
    amount: u64,
    remaining: Seq<RemainingAccount>,
    n: nat,
)
    requires
        n <= MAX_DISTRIBUTIONS,
    ensures
        ({
            let run = claim_run(c, collection_key, program_id, amount, remaining, n);
            &&& run.0.len() <= n
            &&& run.1 is None ==> run.0.len() == n
            &&& forall|k: int|
                0 <= k < run.0.len() ==> {
                    &&& (#[trigger] run.0[k]).index == k
                    &&& run.0[k].distribution_key == c.distributions@[k]
                    &&& claim_group(c, collection_key, program_id, amount, remaining, run.0.take(k), k)
                        == Ok::<Claim, crate::state::Error>(run.0[k])
                }
        }),
    decreases n,
{
    if n > 0 {
        lemma_run_follows_registry(c, collection_key, program_id, amount, remaining, (n - 1) as nat);
        let prev = claim_run(c, collection_key, program_id, amount, remaining, (n - 1) as nat);
        let run = claim_run(c, collection_key, program_id, amount, remaining, n);
        if prev.1 is None {
            let g = claim_group(c, collection_key, program_id, amount, remaining, prev.0, n - 1);
            lemma_group_names_registry(c, collection_key, program_id, amount, remaining, prev.0, n - 1);
            if let Ok(cl) = g {
                assert(run.0 == prev.0.push(cl));
                assert(prev.0.push(cl).take(n - 1) =~= prev.0);
                assert forall|k: int| 0 <= k < run.0.len() implies {
                    &&& (#[trigger] run.0[k]).index == k
                    &&& run.0[k].distribution_key == c.distributions@[k]
                    &&& claim_group(c, collection_key, program_id, amount, remaining, run.0.take(k), k)
                        == Ok::<Claim, crate::state::Error>(run.0[k])
                } by {
                    if k < n - 1 {
                        assert(run.0.take(k) =~= prev.0.take(k));
                        assert(run.0[k] == prev.0[k]);
                    }
                }
            }
        }
    }
}

/// With no earlier payout to the same address, a distribution is read as stored.
pub proof fn lemma_state_before_fresh(
    done: Seq<Claim>,
    key: Pubkey,
    stored: Result<Distribution, DecodeError>,
)
    requires
        forall|k: int| 0 <= k < done.len() ==> (#[trigger] done[k]).distribution_key != key,
    ensures
        state_before(done, key, stored) == stored,
    decreases done.len(),
{
    if done.len() > 0 {
        assert(done.last() == done[done.len() - 1]);
        lemma_state_before_fresh(done.drop_last(), key, stored);
    }
}

/// When the registered distributions are distinct accounts and each is solvent
/// against the collection as it stood, an accepted commit-and-claim leaves
/// every one of them solvent against the collection after the commit, keeps
/// the collection within its cap, and pays from each the proportional share of
/// its deposits.
pub proof fn commit_and_claim_keeps_solvency(
    accounts: UserCommitAndClaimStateless,
    remaining: Seq<RemainingAccount>,
    program_id: Pubkey,
    amount: u64,
    terms_hash: [u8; TERMS_HASH_LEN],
)
    requires
        accounts.collection.wf(),
        commit_and_claim_refusal(accounts, remaining, program_id, amount, terms_hash) is None,
        forall|a: int, b: int|
            0 <= a < b < accounts.collection.num_distributions ==> accounts.collection.distributions@[a]
                != accounts.collection.distributions@[b],
        forall|k: int|
            0 <= k < accounts.collection.num_distributions ==> (#[trigger] remaining[3 * k].distribution
                matches Ok(d) ==> solvent(accounts.collection, d)),
    ensures
        ({
            let c = accounts.collection;
            let payouts = commit_and_claim_payouts(accounts, remaining, program_id, amount);
            &&& committed(c, amount).lifetime_tokens_collected <= c.max_collectable_tokens
            &&& payouts.len() == c.num_distributions
            &&& forall|k: int|
                0 <= k < payouts.len() ==> {
                    let before = remaining[3 * k].distribution->Ok_0;
                    &&& remaining[3 * k].distribution is Ok
                    &&& (#[trigger] payouts[k]).distribution_key == c.distributions@[k]
                    &&& payouts[k].user_share == share_of(
                        amount as int,
                        before.lifetime_deposited_tokens as int,
                        c.max_collectable_tokens as int,
                    )
                    &&& payouts[k].distribution == paid_out(before, payouts[k].user_share)
                    &&& solvent(committed(c, amount), payouts[k].distribution)
                }
        }),
{
    let c = accounts.collection;
    let c1 = committed(c, amount);
    let n = c.num_distributions as nat;
    let payouts = commit_and_claim_payouts(accounts, remaining, program_id, amount);
    lemma_run_follows_registry(c1, accounts.collection_key, program_id, amount, remaining, n);
    assert forall|k: int| 0 <= k < payouts.len() implies {
        let before = remaining[3 * k].distribution->Ok_0;
        &&& remaining[3 * k].distribution is Ok
        &&& (#[trigger] payouts[k]).distribution_key == c.distributions@[k]
        &&& payouts[k].user_share == share_of(
            amount as int,
            before.lifetime_deposited_tokens as int,
            c.max_collectable_tokens as int,
        )
        &&& payouts[k].distribution == paid_out(before, payouts[k].user_share)
        &&& solvent(c1, payouts[k].distribution)
    } by {
        let done = payouts.take(k);
        let key = c.distributions@[k];
        assert forall|j: int| 0 <= j < done.len() implies (#[trigger] done[j]).distribution_key != key by {
            assert(done[j] == payouts[j]);
        }
        lemma_state_before_fresh(done, key, remaining[3 * k].distribution);
        let d = remaining[3 * k].distribution->Ok_0;
        lemma_share_within_deposit(
            amount as int,
            d.lifetime_deposited_tokens as int,
            c.max_collectable_tokens as int,
        );
        claim_keeps_solvency(c, d, amount);
    }
}

/// Committing `a1` and then `a2` (with no deposit in between) ends with the
/// collection of one commit of `a1 + a2`, and pays out of a distribution no
/// more than that single commit does.
pub proof fn split_commit_gains_nothing(c: Collection, d: Distribution, a1: u64, a2: u64)
    requires
        c.lifetime_tokens_collected + a1 + a2 <= c.max_collectable_tokens,
        c.max_collectable_tokens > 0,
        d.distributed_tokens + share_of(
            a1 + a2,
            d.lifetime_deposited_tokens as int,
            c.max_collectable_tokens as int,
        ) <= u64::MAX,
    ensures
        ({
            let cap = c.max_collectable_tokens as int;
            let c1 = committed(c, a1);
            let s1 = share_of(a1 as int, d.lifetime_deposited_tokens as int, cap) as u64;
            let d1 = paid_out(d, s1);
            let s2 = share_of(
                a2 as int,
                d1.lifetime_deposited_tokens as int,
                c1.max_collectable_tokens as int,
            ) as u64;
            let d2 = paid_out(d1, s2);
            let s = share_of((a1 + a2) as int, d.lifetime_deposited_tokens as int, cap) as u64;
            &&& committed(c1, a2) == committed(c, (a1 + a2) as u64)
            &&& d1.distributed_tokens + s2 <= u64::MAX
            &&& d2.lifetime_deposited_tokens == paid_out(d, s).lifetime_deposited_tokens
            &&& d2.distributed_tokens <= paid_out(d, s).distributed_tokens
        }),
{
    let cap = c.max_collectable_tokens as int;
    let dep = d.lifetime_deposited_tokens as int;
    lemma_share_within_deposit(a1 as int, dep, cap);
    lemma_share_within_deposit(a2 as int, dep, cap);
    lemma_share_within_deposit((a1 + a2) as int, dep, cap);
    lemma_split_commit_gains_nothing(a1 as int, a2 as int, dep, cap);
}

} // verus!
