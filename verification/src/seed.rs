//! The balances that a ledger starts with.

use crate::address::Address;
use crate::supply::{lemma_total_of_insert, total_of};
use vstd::prelude::*;

verus! {

/// The balances with which a ledger starts: each account of `account_ids`
/// gets the amount that stands at the place of its first occurrence.
pub open spec fn seeded(account_ids: Seq<Address>, amounts: Seq<u128>) -> Map<Address, u128>
    decreases account_ids.len(),
{
    if account_ids.len() == 0 || amounts.len() == 0 {
        Map::empty()
    } else {
        let earlier = seeded(account_ids.drop_last(), amounts.drop_last());
        if earlier.contains_key(account_ids.last()) {
            earlier
        } else {
            earlier.insert(account_ids.last(), amounts.last())
        }
    }
}

/// One more pair of the lists adds its account, unless an earlier pair has
/// named that account.
pub proof fn lemma_seeded_step(account_ids: Seq<Address>, amounts: Seq<u128>, count: int)
    requires
        account_ids.len() == amounts.len(),
        0 <= count < account_ids.len(),
    ensures
        seeded(account_ids.take(count + 1), amounts.take(count + 1)) == (if seeded(
            account_ids.take(count),
            amounts.take(count),
        ).contains_key(account_ids[count]) {
            seeded(account_ids.take(count), amounts.take(count))
        } else {
            seeded(account_ids.take(count), amounts.take(count)).insert(
                account_ids[count],
                amounts[count],
            )
        }),
{
    assert(account_ids.take(count + 1).drop_last() =~= account_ids.take(count));
    assert(amounts.take(count + 1).drop_last() =~= amounts.take(count));
}

/// The seeded accounts are those that the list names, and they are finitely many.
pub proof fn lemma_seeded_accounts(account_ids: Seq<Address>, amounts: Seq<u128>)
    requires
        account_ids.len() == amounts.len(),
    ensures
        seeded(account_ids, amounts).dom().finite(),
        forall|account: Address|
            seeded(account_ids, amounts).contains_key(account) <==> account_ids.contains(account),
    decreases account_ids.len(),
{
    if account_ids.len() > 0 {
        lemma_seeded_accounts(account_ids.drop_last(), amounts.drop_last());
        assert forall|account: Address|
            seeded(account_ids, amounts).contains_key(account) <==> account_ids.contains(
                account,
            ) by {
            if account_ids.contains(account) {
                let place = choose|place: int|
                    0 <= place < account_ids.len() && account_ids[place] == account;
                if place < account_ids.len() - 1 {
                    assert(account_ids.drop_last()[place] == account);
                }
            }
            if account_ids.drop_last().contains(account) {
                let place = choose|place: int|
                    0 <= place < account_ids.drop_last().len() && account_ids.drop_last()[place]
                        == account;
                assert(account_ids[place] == account);
            }
        }
    }
}

/// Of several pairs that name one account the first decides: an account
/// gets the amount at the place where the list names it first.
pub proof fn lemma_seeded_first_wins(account_ids: Seq<Address>, amounts: Seq<u128>, place: int)
    requires
        account_ids.len() == amounts.len(),
        0 <= place < account_ids.len(),
        forall|earlier: int| 0 <= earlier < place ==> account_ids[earlier] != account_ids[place],
    ensures
        seeded(account_ids, amounts).contains_key(account_ids[place]),
        seeded(account_ids, amounts)[account_ids[place]] == amounts[place],
    decreases account_ids.len(),
{
    if place < account_ids.len() - 1 {
        lemma_seeded_first_wins(account_ids.drop_last(), amounts.drop_last(), place);
    } else {
        lemma_seeded_accounts(account_ids.drop_last(), amounts.drop_last());
        if account_ids.drop_last().contains(account_ids[place]) {
            let earlier = choose|earlier: int|
                0 <= earlier < account_ids.drop_last().len() && account_ids.drop_last()[earlier]
                    == account_ids[place];
            assert(account_ids[earlier] == account_ids[place]);
        }
    }
}

/// The sum of the seeded balances only grows as more pairs are taken in.
pub proof fn lemma_seeded_total_grows(account_ids: Seq<Address>, amounts: Seq<u128>, count: int)
    requires
        account_ids.len() == amounts.len(),
        0 <= count <= account_ids.len(),
    ensures
        total_of(seeded(account_ids.take(count), amounts.take(count))) <= total_of(
            seeded(account_ids, amounts),
        ),
    decreases account_ids.len() - count,
{
    if count == account_ids.len() {
        assert(account_ids.take(count) =~= account_ids);
        assert(amounts.take(count) =~= amounts);
    } else {
        lemma_seeded_total_grows(account_ids, amounts, count + 1);
        lemma_seeded_step(account_ids, amounts, count);
        let earlier = seeded(account_ids.take(count), amounts.take(count));
        lemma_seeded_accounts(account_ids.take(count), amounts.take(count));
        lemma_total_of_insert(earlier, account_ids[count], amounts[count]);
    }
}

} // verus!
