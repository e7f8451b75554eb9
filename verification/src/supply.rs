//! The sum of the balances of a finite map, and how it moves when one
//! balance is written.

use crate::address::Address;
use vstd::prelude::*;

verus! {

/// The balance that `balances` records for `account`: zero where it records none.
pub open spec fn amount_at(balances: Map<Address, u128>, account: Address) -> u128 {
    if balances.contains_key(account) {
        balances[account]
    } else {
        0
    }
}

/// The sum of all the balances in `balances`; zero for a map that is not finite.
pub open spec fn total_of(balances: Map<Address, u128>) -> nat
    decreases balances.dom().len(),
{
    if balances.dom().finite() && balances.dom().len() > 0 {
        let account = balances.dom().choose();
        balances[account] as nat + total_of(balances.remove(account))
    } else {
        0
    }
}

/// An empty map sums to zero.
pub proof fn lemma_total_of_empty()
    ensures
        total_of(Map::<Address, u128>::empty()) == 0,
{
}

/// Any one entry can be split off the sum.
pub proof fn lemma_total_of_remove(balances: Map<Address, u128>, account: Address)
    requires
        balances.dom().finite(),
        balances.contains_key(account),
    ensures
        total_of(balances) == balances[account] + total_of(balances.remove(account)),
    decreases balances.dom().len(),
{
    let chosen = balances.dom().choose();
    if chosen != account {
        lemma_total_of_remove(balances.remove(chosen), account);
        lemma_total_of_remove(balances.remove(account), chosen);
        assert(balances.remove(chosen).remove(account) =~= balances.remove(account).remove(chosen));
    }
}

/// Writing one balance moves the sum by the difference between the new
/// balance and the old one.
pub proof fn lemma_total_of_insert(balances: Map<Address, u128>, account: Address, amount: u128)
    requires
        balances.dom().finite(),
    ensures
        total_of(balances.insert(account, amount)) == total_of(balances) - amount_at(
            balances,
            account,
        ) + amount,
{
    let written = balances.insert(account, amount);
    lemma_total_of_remove(written, account);
    assert(written.remove(account) =~= balances.remove(account));
    if balances.contains_key(account) {
        lemma_total_of_remove(balances, account);
    } else {
        assert(balances.remove(account) =~= balances);
    }
}

/// Two distinct accounts together hold no more than the sum.
pub proof fn lemma_total_of_bounds_pair(
    balances: Map<Address, u128>,
    first: Address,
    second: Address,
)
    requires
        balances.dom().finite(),
        first != second,
    ensures
        amount_at(balances, first) + amount_at(balances, second) <= total_of(balances),
{
    if balances.contains_key(first) {
        lemma_total_of_remove(balances, first);
        if balances.contains_key(second) {
            lemma_total_of_remove(balances.remove(first), second);
        }
    } else if balances.contains_key(second) {
        lemma_total_of_remove(balances, second);
    }
}

/// Where the balances of `base` are all zero, laying `written` over them
/// gives the sum of `written`.
pub proof fn lemma_total_of_union_over_zero(base: Map<Address, u128>, written: Map<Address, u128>)
    requires
        base.dom().finite(),
        written.dom().finite(),
        total_of(base) == 0,
    ensures
        base.union_prefer_right(written).dom().finite(),
        total_of(base.union_prefer_right(written)) == total_of(written),
    decreases base.dom().len(),
{
    if base.dom().len() == 0 {
        assert(base.union_prefer_right(written) =~= written);
    } else {
        let account = base.dom().choose();
        let rest = base.remove(account);
        lemma_total_of_union_over_zero(rest, written);
        if written.contains_key(account) {
            assert(base.union_prefer_right(written) =~= rest.union_prefer_right(written));
        } else {
            assert(base.union_prefer_right(written) =~= rest.union_prefer_right(written).insert(
                account,
                0,
            ));
            lemma_total_of_insert(rest.union_prefer_right(written), account, 0);
        }
    }
}

} // verus!
