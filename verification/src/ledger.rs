//! The ledger and the operations of its parts: balances, allowances and
//! the set of minters.

use crate::address::Address;
use crate::allowance::FTAllowance;
use crate::error::FtError;
use crate::laws::{lemma_mint_conserves, lemma_transfer_conserves};
use crate::metadata::FTMetadata;
use crate::notice::Notice;
use crate::seed::{lemma_seeded_accounts, lemma_seeded_step, lemma_seeded_total_grows, seeded};
use crate::supply::{
    lemma_total_of_empty, lemma_total_of_insert, lemma_total_of_union_over_zero, total_of,
};
use crate::view::{AllowanceUpdateOp, LedgerView};
use std::collections::{BTreeMap, BTreeSet};
use vstd::prelude::*;

verus! {

/// The state of a token: who holds how much, who may spend whose tokens,
/// how many tokens exist and who may create more.
#[derive(Debug, PartialEq, Eq)]
pub struct L1xFtErc20 {
    pub metadata: FTMetadata,
    pub balances: BTreeMap<Address, u128>,
    pub allowances: BTreeMap<Address, FTAllowance>,
    pub total_supply: u128,
    pub authorized_callers: BTreeSet<Address>,
}

impl View for L1xFtErc20 {
    type V = LedgerView;

    open spec fn view(&self) -> LedgerView {
        LedgerView {
            metadata: self.metadata@,
            balances: self.balances@,
            allowances: self.allowances@.map_values(|table: FTAllowance| table@),
            total_supply: self.total_supply,
            authorized_callers: self.authorized_callers@,
        }
    }
}

impl Clone for L1xFtErc20 {
    fn clone(&self) -> (copy: Self)
        ensures
            copy@ == self@,
    {
        L1xFtErc20 {
            metadata: self.metadata.clone(),
            balances: self.balances.clone(),
            allowances: self.allowances.clone(),
            total_supply: self.total_supply,
            authorized_callers: self.authorized_callers.clone(),
        }
    }
}

/// Whether two accounts are the same.
pub fn same_account(first: &Address, second: &Address) -> (same: bool)
    ensures
        same == (*first == *second),
{
    first.0 == second.0 && first.1 == second.1
}

impl L1xFtErc20 {
    /// The balance that the ledger records for `account_id`, if it records one.
    pub fn balance_of(&self, account_id: &Address) -> (balance: Option<u128>)
        ensures
            balance == (if self@.balances.contains_key(*account_id) {
                Some(self@.balances[*account_id])
            } else {
                None
            }),
    {
        match self.balances.get(account_id) {
            Some(balance) => Some(*balance),
            None => None,
        }
    }

    /// Whether `account_id` may mint.
    pub fn is_authorized_minter(&self, account_id: &Address) -> (authorized: bool)
        ensures
            authorized == self@.is_authorized_minter(*account_id),
    {
        self.authorized_callers.contains(account_id)
    }

    /// Fails with [`FtError::NoBalance`] unless `account_id` holds tokens.
    pub fn assert_if_no_balance(&self, account_id: &Address) -> (result: Result<(), FtError>)
        ensures
            result == self@.assert_if_no_balance(*account_id),
    {
        match self.balance_of(account_id) {
            Some(balance) if balance != 0 => Ok(()),
            _ => Err(FtError::NoBalance),
        }
    }

    /// Creates `amount` tokens and gives them to `recipient_id`. Fails with
    /// [`FtError::ArithmeticOverflow`] where the total supply or the
    /// recipient's balance would leave the 128-bit range.
    pub fn mint(
        &mut self,
        recipient_id: &Address,
        amount: u128,
    ) -> (result: Result<Notice, FtError>)
        ensures
            match old(self)@.mint(*recipient_id, amount) {
                Ok(next) => {
                    &&& result == Ok::<Notice, FtError>(
                        Notice::Minted { amount, recipient: *recipient_id },
                    )
                    &&& final(self)@ == next
                },
                Err(error) => result == Err::<Notice, FtError>(error) && final(self)@ == old(self)@,
            },
            old(self)@.conserved() ==> final(self)@.conserved(),
            final(self)@.total_supply >= old(self)@.total_supply,
    {
        proof {
            if self@.conserved() {
                lemma_mint_conserves(self@, *recipient_id, amount);
            }
        }
        let receiver_balance = match self.balance_of(recipient_id) {
            Some(balance) => balance,
            None => 0,
        };
        let total_supply = match self.total_supply.checked_add(amount) {
            Some(total_supply) => total_supply,
            None => return Err(FtError::ArithmeticOverflow),
        };
        let balance = match receiver_balance.checked_add(amount) {
            Some(balance) => balance,
            None => return Err(FtError::ArithmeticOverflow),
        };
        self.total_supply = total_supply;
        self.balances.insert(*recipient_id, balance);
        Ok(Notice::Minted { amount, recipient: *recipient_id })
    }

    /// What a transfer of `amount` from `sender_id` to `recipient_id` would
    /// leave the two of them with, or why it is refused.
    pub fn transfer_balances(
        &self,
        sender_id: &Address,
        recipient_id: &Address,
        amount: u128,
    ) -> (result: Result<(u128, u128), FtError>)
        ensures
            match self@.transfer(*sender_id, *recipient_id, amount) {
                Ok(next) => result == Ok::<(u128, u128), FtError>(
                    (next.balance_of(*sender_id), next.balance_of(*recipient_id)),
                ),
                Err(error) => result == Err::<(u128, u128), FtError>(error),
            },
    {
        if same_account(sender_id, recipient_id) {
            return Err(FtError::InvalidOperation);
        }
        let sender_balance = match self.balance_of(sender_id) {
            Some(balance) => balance,
            None => 0,
        };
        if sender_balance < amount {
            return Err(FtError::InsufficientBalance);
        }
        let receiver_balance = match self.balance_of(recipient_id) {
            Some(balance) => balance,
            None => 0,
        };
        match receiver_balance.checked_add(amount) {
            Some(credited) => Ok((sender_balance - amount, credited)),
            None => Err(FtError::ArithmeticOverflow),
        }
    }

    /// Moves `amount` tokens from `sender_id` to `recipient_id`. Fails with
    /// [`FtError::InvalidOperation`] where the two are the same account, with
    /// [`FtError::InsufficientBalance`] where the sender holds less than
    /// `amount`, and with [`FtError::ArithmeticOverflow`] where the
    /// recipient's balance would leave the 128-bit range.
    pub fn transfer(
        &mut self,
        sender_id: &Address,
        recipient_id: &Address,
        amount: u128,
    ) -> (result: Result<Notice, FtError>)
        ensures
            match old(self)@.transfer(*sender_id, *recipient_id, amount) {
                Ok(next) => {
                    &&& result == Ok::<Notice, FtError>(
                        Notice::Transferred {
                            amount,
                            sender: *sender_id,
                            recipient: *recipient_id,
                        },
                    )
                    &&& final(self)@ == next
                },
                Err(error) => result == Err::<Notice, FtError>(error) && final(self)@ == old(self)@,
            },
            old(self)@.conserved() ==> final(self)@.conserved(),
            final(self)@.total_supply >= old(self)@.total_supply,
    {
        proof {
            if self@.conserved() {
                lemma_transfer_conserves(self@, *sender_id, *recipient_id, amount);
            }
        }
        match self.transfer_balances(sender_id, recipient_id, amount) {
            Ok((debited, credited)) => {
                self.balances.insert(*sender_id, debited);
                self.balances.insert(*recipient_id, credited);
                Ok(Notice::Transferred { amount, sender: *sender_id, recipient: *recipient_id })
            },
            Err(error) => Err(error),
        }
    }

    /// Changes what `spender_id` may move out of the balance of `owner_id`.
    /// To set or to raise a limit creates the owner's table where there is
    /// none; to lower or to spend one fails with [`FtError::NoAllowance`]
    /// there, and with [`FtError::AllowanceTooSmall`] where the limit is less
    /// than `amount`. To raise a limit beyond the 128-bit range fails with
    /// [`FtError::ArithmeticOverflow`].
    pub fn allowance_update(
        &mut self,
        update_op: AllowanceUpdateOp,
        owner_id: &Address,
        spender_id: &Address,
        amount: u128,
    ) -> (result: Result<(), FtError>)
        ensures
            match old(self)@.allowance_update(update_op, *owner_id, *spender_id, amount) {
                Ok(next) => result is Ok && final(self)@ == next,
                Err(error) => result == Err::<(), FtError>(error) && final(self)@ == old(self)@,
            },
            old(self)@.conserved() ==> final(self)@.conserved(),
            final(self)@.total_supply >= old(self)@.total_supply,
    {
        let ghost before = self.allowances@;
        match self.allowances.remove(owner_id) {
            Some(mut allowance) => {
                let result = match update_op {
                    AllowanceUpdateOp::Overwrite => {
                        allowance.set(*spender_id, amount);
                        Ok(())
                    },
                    AllowanceUpdateOp::Increase => allowance.increase(spender_id, amount),
                    AllowanceUpdateOp::Decrease => allowance.decrease(spender_id, amount),
                    AllowanceUpdateOp::Spend => allowance.spend(spender_id, amount),
                };
                self.allowances.insert(*owner_id, allowance);
                proof {
                    let view_of = |table: FTAllowance| table@;
                    assert(self.allowances@.map_values(view_of) =~= before.map_values(
                        view_of,
                    ).insert(*owner_id, allowance@));
                }
                result
            },
            None => match update_op {
                AllowanceUpdateOp::Overwrite | AllowanceUpdateOp::Increase => {
                    let mut allowance = FTAllowance::default();
                    allowance.set(*spender_id, amount);
                    self.allowances.insert(*owner_id, allowance);
                    proof {
                        let view_of = |table: FTAllowance| table@;
                        assert(self.allowances@.map_values(view_of) =~= before.map_values(
                            view_of,
                        ).insert(*owner_id, allowance@));
                    }
                    Ok(())
                },
                AllowanceUpdateOp::Decrease | AllowanceUpdateOp::Spend => Err(FtError::NoAllowance),
            },
        }
    }

    /// Gives each account of `account_ids` the amount at the same place of
    /// `amounts`, and makes the sum of these the total supply. Of several
    /// places that name one account the first decides. Fails with
    /// [`FtError::LengthMismatch`] where the lists differ in length, with
    /// [`FtError::AlreadyInitialized`] where the ledger has a supply
    /// already, and with [`FtError::ArithmeticOverflow`] where the sum
    /// leaves the 128-bit range.
    pub fn initialize_balance_holders(
        &mut self,
        account_ids: Vec<Address>,
        amounts: Vec<u128>,
    ) -> (result: Result<(), FtError>)
        ensures
            match old(self)@.initialize_balance_holders(account_ids@, amounts@) {
                Ok(next) => result is Ok && final(self)@ == next,
                Err(error) => result == Err::<(), FtError>(error) && final(self)@ == old(self)@,
            },
            old(self)@.conserved() ==> final(self)@.conserved(),
            final(self)@.total_supply >= old(self)@.total_supply,
    {
        if account_ids.len() != amounts.len() {
            return Err(FtError::LengthMismatch);
        }
        if self.total_supply != 0 {
            return Err(FtError::AlreadyInitialized);
        }
        let mut balances = self.balances.clone();
        let mut unique_account_ids: BTreeSet<Address> = BTreeSet::new();
        let mut total_supply: u128 = 0;
        let mut done: usize = 0;
        proof {
            lemma_total_of_empty();
            assert(balances@ =~= self.balances@.union_prefer_right(
                seeded(account_ids@.take(0), amounts@.take(0)),
            ));
        }
        while done < account_ids.len()
            invariant
                *self == *old(self),
                self.total_supply == 0,
                account_ids.len() == amounts.len(),
                done <= account_ids.len(),
                unique_account_ids@ == seeded(
                    account_ids@.take(done as int),
                    amounts@.take(done as int),
                ).dom(),
                balances@ == self.balances@.union_prefer_right(
                    seeded(account_ids@.take(done as int), amounts@.take(done as int)),
                ),
                total_supply == total_of(
                    seeded(account_ids@.take(done as int), amounts@.take(done as int)),
                ),
            decreases account_ids.len() - done,
        {
            let account_id = account_ids[done];
            let amount = amounts[done];
            proof {
                lemma_seeded_step(account_ids@, amounts@, done as int);
                lemma_seeded_accounts(account_ids@.take(done as int), amounts@.take(done as int));
                lemma_total_of_insert(
                    seeded(account_ids@.take(done as int), amounts@.take(done as int)),
                    account_id,
                    amount,
                );
            }
            if !unique_account_ids.contains(&account_id) {
                match total_supply.checked_add(amount) {
                    Some(sum) => {
                        unique_account_ids.insert(account_id);
                        balances.insert(account_id, amount);
                        total_supply = sum;
                    },
                    None => {
                        proof {
                            lemma_seeded_total_grows(account_ids@, amounts@, done + 1);
                        }
                        return Err(FtError::ArithmeticOverflow);
                    },
                }
            }
            done += 1;
        }
        proof {
            assert(account_ids@.take(done as int) =~= account_ids@);
            assert(amounts@.take(done as int) =~= amounts@);
            lemma_seeded_accounts(account_ids@, amounts@);
            if self@.conserved() {
                lemma_total_of_union_over_zero(self.balances@, seeded(account_ids@, amounts@));
            }
        }
        self.balances = balances;
        self.total_supply = total_supply;
        Ok(())
    }
}

} // verus!
