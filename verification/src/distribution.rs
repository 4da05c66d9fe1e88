//! How a balance is split between the members.
//!
//! A member with `shares` basis points receives `floor(balance * shares /
//! 10000)`. The division is done on integers wide enough to hold the product,
//! so the result is exact for every balance. Nothing asks the shares of a
//! distributor to add up to 10000: with less, or with remainders of the
//! division, part of the balance stays in the pool; with more, the amounts add
//! up to more than the balance, and the token program refuses the transfer
//! that the pool can no longer pay.
use crate::state::{Member, MemberView};
use vstd::prelude::*;

verus! {

/// The number of basis points that stand for the whole balance.
pub const BASIS_POINTS: u64 = 10000;

/// The part of `balance` that `shares` basis points stand for, rounded down.
pub open spec fn proportional_amount(balance: nat, shares: nat) -> nat {
    balance * shares / (BASIS_POINTS as nat)
}

/// The amount transferred to a member with `shares` basis points.
///
/// It is the proportional amount. With more than 10000 basis points that
/// amount can exceed the largest 64-bit integer, and is then replaced by it.
pub open spec fn member_amount(balance: u64, shares: u16) -> u64 {
    if proportional_amount(balance as nat, shares as nat) > u64::MAX {
        u64::MAX
    } else {
        proportional_amount(balance as nat, shares as nat) as u64
    }
}

/// The amounts transferred to `members`, in their order.
pub open spec fn member_amounts(balance: u64, members: Seq<MemberView>) -> Seq<u64> {
    Seq::new(members.len(), |k: int| member_amount(balance, members[k].shares))
}

/// The sum of the shares of `members`.
pub open spec fn total_shares(members: Seq<MemberView>) -> nat
    decreases members.len(),
{
    if members.len() == 0 {
        0
    } else {
        total_shares(members.drop_last()) + members.last().shares as nat
    }
}

/// The sum of `amounts`.
pub open spec fn total_amount(amounts: Seq<u64>) -> nat
    decreases amounts.len(),
{
    if amounts.len() == 0 {
        0
    } else {
        total_amount(amounts.drop_last()) + amounts.last() as nat
    }
}

/// A member with at most 10000 basis points receives exactly its proportional
/// amount, which is no more than the balance.
pub proof fn lemma_member_amount_within_balance(balance: u64, shares: u16)
    requires
        shares <= BASIS_POINTS,
    ensures
        member_amount(balance, shares) == proportional_amount(balance as nat, shares as nat),
        member_amount(balance, shares) <= balance,
{
    let product = balance as nat * shares as nat;
    assert(product <= balance as nat * 10000) by (nonlinear_arith)
        requires
            product == balance as nat * shares as nat,
            shares <= 10000,
    ;
}

/// Rounding down never distributes more than the shares stand for: the
/// amounts of the members add up to no more than the proportional amount of
/// all their shares together.
pub proof fn lemma_distribution_bounded(balance: u64, members: Seq<MemberView>)
    ensures
        total_amount(member_amounts(balance, members)) <= proportional_amount(
            balance as nat,
            total_shares(members),
        ),
    decreases members.len(),
{
    let amounts = member_amounts(balance, members);
    if members.len() > 0 {
        let rest = members.drop_last();
        let last = members.last().shares as nat;
        lemma_distribution_bounded(balance, rest);
        assert(amounts.drop_last() =~= member_amounts(balance, rest));
        let a = balance as nat * total_shares(rest);
        let b = balance as nat * last;
        assert(balance as nat * (total_shares(rest) + last) == a + b) by (nonlinear_arith)
            requires
                a == balance as nat * total_shares(rest),
                b == balance as nat * last,
        ;
    }
}

/// Conservation: where the shares add up to at most 10000 basis points, the
/// amounts add up to at most the balance. What rounding leaves over stays in
/// the pool.
pub proof fn lemma_distribution_conserved(balance: u64, members: Seq<MemberView>)
    requires
        total_shares(members) <= BASIS_POINTS,
    ensures
        total_amount(member_amounts(balance, members)) <= balance,
{
    lemma_distribution_bounded(balance, members);
    let product = balance as nat * total_shares(members);
    assert(product <= balance as nat * 10000) by (nonlinear_arith)
        requires
            product == balance as nat * total_shares(members),
            total_shares(members) <= 10000,
    ;
}

/// The amount transferred to a member with `shares` basis points.
pub fn amount_for(balance: u64, shares: u16) -> (amount: u64)
    ensures
        amount == member_amount(balance, shares),
{
    let wide_balance: u128 = balance as u128;
    let wide_shares: u128 = shares as u128;
    assert(wide_balance * wide_shares <= 0xffff_ffff_ffff_ffff * 0xffff) by (nonlinear_arith)
        requires
            wide_balance <= 0xffff_ffff_ffff_ffff,
            wide_shares <= 0xffff,
    ;
    let amount: u128 = wide_balance * wide_shares / (BASIS_POINTS as u128);
    if amount > u64::MAX as u128 {
        u64::MAX
    } else {
        amount as u64
    }
}

/// The amounts transferred to `members`, in their order.
pub fn distribute(balance: u64, members: &Vec<Member>) -> (amounts: Vec<u64>)
    ensures
        amounts@ == member_amounts(balance, crate::state::members_view(members@)),
{
    let mut amounts: Vec<u64> = Vec::new();
    let mut k: usize = 0;
    while k < members.len()
        invariant
            k <= members.len(),
            amounts@.len() == k,
            forall|j: int|
                0 <= j < k ==> #[trigger] amounts@[j] == member_amount(balance, members@[j].shares),
        decreases members.len() - k,
    {
        amounts.push(amount_for(balance, members[k].shares));
        k += 1;
    }
    amounts
}

} // verus!
