use vstd::prelude::*;
use vstd::arithmetic::div_mod::{lemma_fundamental_div_mod, lemma_mod_bound, lemma_div_is_ordered};
use vstd::arithmetic::mul::{lemma_mul_inequality, lemma_mul_upper_bound};

verus! {

/// A committer's share of a distribution: the deposited tokens times the
/// committed amount, divided by the collection's cap, rounded down.
pub open spec fn share_of(amount: int, deposited: int, max_collectable: int) -> int {
    (amount * deposited) / max_collectable
}

/// The share computed in 128-bit arithmetic: `None` when the cap is zero
/// (the division has no result), otherwise the quotient cut to 64 bits.
pub fn user_share(amount: u64, deposited: u64, max_collectable: u64) -> (r: Option<u64>)
    ensures
        r is None <==> max_collectable == 0,
        r matches Some(s) ==> s == share_of(amount as int, deposited as int, max_collectable as int) as u64,
        amount <= max_collectable ==> (r matches Some(s) ==> {
            &&& s == share_of(amount as int, deposited as int, max_collectable as int)
            &&& s <= deposited
        }),
{
    let a: u128 = amount as u128;
    let d: u128 = deposited as u128;
    proof {
        lemma_mul_upper_bound(a as int, u64::MAX as int, d as int, u64::MAX as int);
        assert(u64::MAX * u64::MAX <= u128::MAX) by (nonlinear_arith);
    }
    let product: u128 = a * d;
    if max_collectable == 0 {
        return None;
    }
    let quotient: u128 = product / (max_collectable as u128);
    proof {
        if amount <= max_collectable {
            lemma_share_within_deposit(amount as int, deposited as int, max_collectable as int);
        }
    }
    Some(quotient as u64)
}

/// The share is the floor of the exact proportion:
/// `share * cap <= amount * deposited < (share + 1) * cap`.
pub proof fn lemma_share_is_floor(amount: int, deposited: int, max_collectable: int)
    requires
        0 < max_collectable,
    ensures
        share_of(amount, deposited, max_collectable) * max_collectable <= amount * deposited,
        amount * deposited < (share_of(amount, deposited, max_collectable) + 1) * max_collectable,
{
    let x = amount * deposited;
    let q = x / max_collectable;
    lemma_fundamental_div_mod(x, max_collectable);
    lemma_mod_bound(x, max_collectable);
    assert(q * max_collectable == max_collectable * q) by (nonlinear_arith);
    assert((q + 1) * max_collectable == q * max_collectable + max_collectable) by (nonlinear_arith);
}

/// Nobody who commits at most the cap is owed more than was deposited.
pub proof fn lemma_share_within_deposit(amount: int, deposited: int, max_collectable: int)
    requires
        0 <= amount <= max_collectable,
        0 <= deposited,
        0 < max_collectable,
    ensures
        0 <= share_of(amount, deposited, max_collectable) <= deposited,
{
    lemma_mul_inequality(amount, max_collectable, deposited);
    assert(amount * deposited <= deposited * max_collectable) by (nonlinear_arith)
        requires
            amount * deposited <= max_collectable * deposited,
    ;
    assert(0 <= amount * deposited) by (nonlinear_arith)
        requires
            0 <= amount,
            0 <= deposited,
    ;
    lemma_div_is_ordered(0, amount * deposited, max_collectable);
    lemma_div_is_ordered(amount * deposited, deposited * max_collectable, max_collectable);
    assert((deposited * max_collectable) / max_collectable == deposited) by (nonlinear_arith)
        requires
            0 < max_collectable,
    ;
}

/// Committing in two parts never yields more than committing the sum at once.
pub proof fn lemma_split_commit_gains_nothing(a: int, b: int, deposited: int, max_collectable: int)
    requires
        0 < max_collectable,
    ensures
        share_of(a, deposited, max_collectable) + share_of(b, deposited, max_collectable)
            <= share_of(a + b, deposited, max_collectable),
{
    let sa = share_of(a, deposited, max_collectable);
    let sb = share_of(b, deposited, max_collectable);
    let s = share_of(a + b, deposited, max_collectable);
    lemma_share_is_floor(a, deposited, max_collectable);
    lemma_share_is_floor(b, deposited, max_collectable);
    lemma_share_is_floor(a + b, deposited, max_collectable);
    assert((a + b) * deposited == a * deposited + b * deposited) by (nonlinear_arith);
    assert(sa + sb <= s) by (nonlinear_arith)
        requires
            sa * max_collectable <= a * deposited,
            sb * max_collectable <= b * deposited,
            (a + b) * deposited < (s + 1) * max_collectable,
            (a + b) * deposited == a * deposited + b * deposited,
            0 < max_collectable,
    ;
}

/// More committed, or more deposited, never makes the share smaller.
pub proof fn lemma_share_monotone(
    amount: int,
    more_amount: int,
    deposited: int,
    more_deposited: int,
    max_collectable: int,
)
    requires
        0 <= amount <= more_amount,
        0 <= deposited <= more_deposited,
        0 < max_collectable,
    ensures
        share_of(amount, deposited, max_collectable) <= share_of(
            more_amount,
            more_deposited,
            max_collectable,
        ),
{
    lemma_mul_upper_bound(amount, more_amount, deposited, more_deposited);
    lemma_div_is_ordered(amount * deposited, more_amount * more_deposited, max_collectable);
}

} // verus!
