//! Verified custody state machines: a time- and proof-gated escrow, a
//! hash-time-locked atomic swap, and a peer-to-peer transfer service with a
//! commitment/nullifier shielded pool.
//!
//! The host ledger (caller identity, block time, attached value, outbound
//! transfers) is out of scope: every operation takes those observations as
//! plain arguments and returns the outbound transfers it wants queued, so the
//! whole transition logic is verified here.

use vstd::prelude::*;

pub mod errors;
pub mod escrow;
pub mod hashing;
pub mod strmap;
pub mod swap;
pub mod transfer;

verus! {

/// The largest amount a module accepts in one deposit. Fees are taken as
/// `amount * basis_points / 10_000`, so the numerator of any fee computation
/// on an accepted amount stays within `u128`.
pub const MAX_AMOUNT: u128 = u128::MAX / 10_000;

/// The basis-point fee taken from an amount: `amount * bp / 10_000`, rounded
/// down.
pub open spec fn fee_of(amount: u128, bp: u16) -> int {
    (amount * bp) / 10000
}

/// What the counterparty receives after the fee.
pub open spec fn payout_of(amount: u128, bp: u16) -> int {
    amount - fee_of(amount, bp)
}

/// The fee computation fits the machine and never exceeds the amount.
pub proof fn lemma_fee_bounds(amount: u128, bp: u16)
    requires
        amount <= MAX_AMOUNT,
        bp <= 10000,
    ensures
        amount * bp <= u128::MAX,
        0 <= fee_of(amount, bp) <= amount,
{
    vstd::arithmetic::mul::lemma_mul_inequality(bp as int, 10000, amount as int);
    assert(amount * bp == bp * amount) by (nonlinear_arith);
    assert(amount * 10000 == 10000 * amount) by (nonlinear_arith);
    vstd::arithmetic::mul::lemma_mul_inequality(amount as int, MAX_AMOUNT as int, 10000);
    assert(MAX_AMOUNT * 10000 <= u128::MAX) by (nonlinear_arith);
    vstd::arithmetic::div_mod::lemma_div_is_ordered(amount * bp, amount * 10000, 10000);
    vstd::arithmetic::div_mod::lemma_div_by_multiple(amount as int, 10000);
}

/// One outbound payment of native asset, queued by a transition for the host
/// to perform after the transition commits.
pub struct OutboundTransfer {
    pub recipient: String,
    pub amount: u128,
}

/// Some entry of the list is the given account.
pub open spec fn has_account(s: Seq<String>, a: Seq<char>) -> bool {
    exists|i: int| 0 <= i < s.len() && s[i]@ == a
}

/// No two entries of the list are the same account.
pub open spec fn distinct_accounts(s: Seq<String>) -> bool {
    forall|i: int, j: int| 0 <= i < j < s.len() ==> s[i]@ != s[j]@
}

/// Copy a list of ids. `Vec::clone` promises only that each element is a
/// clone; for strings a clone is the same value, which this wrapper states.
pub fn clone_id_list(v: &Vec<String>) -> (r: Vec<String>)
    ensures
        r@ == v@,
{
    let r = v.clone();
    proof {
        assert forall|i: int| 0 <= i < v@.len() implies r@[i] == v@[i] by {}
        assert(r@ =~= v@);
    }
    r
}

/// The position of an account in a list, if it is there.
pub fn find_account(v: &Vec<String>, a: &String) -> (r: Option<usize>)
    ensures
        match r {
            Some(i) => i < v@.len() && v@[i as int]@ == a@,
            None => !has_account(v@, a@),
        },
{
    let n = v.len();
    let mut i: usize = 0;
    while i < n
        invariant
            n == v@.len(),
            i <= n,
            forall|j: int| 0 <= j < i ==> v@[j]@ != a@,
        decreases n - i,
    {
        if v[i] == *a {
            return Some(i);
        }
        i = i + 1;
    }
    None
}

/// Membership test for an account list.
pub fn contains_account(v: &Vec<String>, a: &String) -> (r: bool)
    ensures
        r == has_account(v@, a@),
{
    let n = v.len();
    let mut i: usize = 0;
    while i < n
        invariant
            n == v@.len(),
            i <= n,
            forall|j: int| 0 <= j < i ==> v@[j]@ != a@,
        decreases n - i,
    {
        if v[i] == *a {
            return true;
        }
        i = i + 1;
    }
    false
}

} // verus!
