//! The content of a ledger, and what each operation makes of it.
//!
//! Every operation is a function from a content and the operation's
//! arguments to the next content, or to the reason for which the operation
//! is refused.

use crate::address::Address;
use crate::allowance::{increased, spent};
use crate::error::FtError;
use crate::metadata::MetadataView;
use crate::seed::seeded;
use crate::supply::{amount_at, total_of};
use vstd::prelude::*;

verus! {

/// How [`LedgerView::allowance_update`] changes a spending limit.
#[derive(Clone, Copy, Debug, PartialEq, Eq, Structural)]
pub enum AllowanceUpdateOp {
    /// Replace the limit.
    Overwrite,
    /// Raise the limit.
    Increase,
    /// Lower the limit.
    Decrease,
    /// Use up a part of the limit.
    Spend,
}

/// The content of a ledger.
#[verifier::ext_equal]
pub struct LedgerView {
    /// The description of the token.
    pub metadata: MetadataView,
    /// The balance of each account that has one; any other account holds nothing.
    pub balances: Map<Address, u128>,
    /// For each owner that has granted any, the limit of each spender.
    pub allowances: Map<Address, Map<Address, u128>>,
    /// The number of tokens in existence.
    pub total_supply: u128,
    /// The accounts that may mint.
    pub authorized_callers: Set<Address>,
}

impl LedgerView {
    /// A ledger without balances and allowances, in which `owner` alone may mint.
    pub open spec fn empty(metadata: MetadataView, owner: Address) -> LedgerView {
        LedgerView {
            metadata,
            balances: Map::empty(),
            allowances: Map::empty(),
            total_supply: 0,
            authorized_callers: set![owner],
        }
    }

    /// The balance of `account_id`.
    pub open spec fn balance_of(self, account_id: Address) -> u128 {
        amount_at(self.balances, account_id)
    }

    /// The limits that `owner_id` has granted: none where the ledger records none.
    pub open spec fn granted_by(self, owner_id: Address) -> Map<Address, u128> {
        if self.allowances.contains_key(owner_id) {
            self.allowances[owner_id]
        } else {
            Map::empty()
        }
    }

    /// What `spender_id` may still move out of the balance of `owner_id`.
    pub open spec fn allowance(self, owner_id: Address, spender_id: Address) -> u128 {
        amount_at(self.granted_by(owner_id), spender_id)
    }

    /// Whether `account_id` may mint.
    pub open spec fn is_authorized_minter(self, account_id: Address) -> bool {
        self.authorized_callers.contains(account_id)
    }

    /// The balances add up to the total supply.
    pub open spec fn conserved(self) -> bool {
        &&& self.balances.dom().finite()
        &&& total_of(self.balances) == self.total_supply
    }

    /// The ledger with the limits of `owner_id` replaced by `spenders`.
    pub open spec fn with_grants(
        self,
        owner_id: Address,
        spenders: Map<Address, u128>,
    ) -> LedgerView {
        LedgerView { allowances: self.allowances.insert(owner_id, spenders), ..self }
    }

    /// Seeds the balances of a ledger that has no supply yet.
    pub open spec fn initialize_balance_holders(
        self,
        account_ids: Seq<Address>,
        amounts: Seq<u128>,
    ) -> Result<LedgerView, FtError> {
        let seeds = seeded(account_ids, amounts);
        if account_ids.len() != amounts.len() {
            Err(FtError::LengthMismatch)
        } else if self.total_supply != 0 {
            Err(FtError::AlreadyInitialized)
        } else if total_of(seeds) > u128::MAX {
            Err(FtError::ArithmeticOverflow)
        } else {
            Ok(
                LedgerView {
                    balances: self.balances.union_prefer_right(seeds),
                    total_supply: total_of(seeds) as u128,
                    ..self
                },
            )
        }
    }

    /// Creates `amount` tokens and gives them to `recipient_id`.
    pub open spec fn mint(
        self,
        recipient_id: Address,
        amount: u128,
    ) -> Result<LedgerView, FtError> {
        let supply = self.total_supply + amount;
        let balance = self.balance_of(recipient_id) + amount;
        if supply > u128::MAX || balance > u128::MAX {
            Err(FtError::ArithmeticOverflow)
        } else {
            Ok(
                LedgerView {
                    balances: self.balances.insert(recipient_id, balance as u128),
                    total_supply: supply as u128,
                    ..self
                },
            )
        }
    }

    /// Moves `amount` tokens from `sender_id` to `recipient_id`.
    pub open spec fn transfer(
        self,
        sender_id: Address,
        recipient_id: Address,
        amount: u128,
    ) -> Result<LedgerView, FtError> {
        let debited = self.balance_of(sender_id) - amount;
        let credited = self.balance_of(recipient_id) + amount;
        if sender_id == recipient_id {
            Err(FtError::InvalidOperation)
        } else if debited < 0 {
            Err(FtError::InsufficientBalance)
        } else if credited > u128::MAX {
            Err(FtError::ArithmeticOverflow)
        } else {
            Ok(
                LedgerView {
                    balances: self.balances.insert(sender_id, debited as u128).insert(
                        recipient_id,
                        credited as u128,
                    ),
                    ..self
                },
            )
        }
    }

    /// Changes what `spender_id` may move out of the balance of `owner_id`.
    /// A limit can be set or raised for any owner; it can be lowered or
    /// spent only for an owner who has granted a limit before.
    pub open spec fn allowance_update(
        self,
        update_op: AllowanceUpdateOp,
        owner_id: Address,
        spender_id: Address,
        amount: u128,
    ) -> Result<LedgerView, FtError> {
        let granted = self.granted_by(owner_id);
        match update_op {
            AllowanceUpdateOp::Overwrite => Ok(
                self.with_grants(owner_id, granted.insert(spender_id, amount)),
            ),
            AllowanceUpdateOp::Increase => match increased(granted, spender_id, amount) {
                Ok(spenders) => Ok(self.with_grants(owner_id, spenders)),
                Err(error) => Err(error),
            },
            AllowanceUpdateOp::Decrease | AllowanceUpdateOp::Spend => {
                if !self.allowances.contains_key(owner_id) {
                    Err(FtError::NoAllowance)
                } else {
                    match spent(granted, spender_id, amount) {
                        Ok(spenders) => Ok(self.with_grants(owner_id, spenders)),
                        Err(error) => Err(error),
                    }
                }
            },
        }
    }

    /// Fails unless `account_id` holds tokens.
    pub open spec fn assert_if_no_balance(self, account_id: Address) -> Result<(), FtError> {
        if self.balance_of(account_id) == 0 {
            Err(FtError::NoBalance)
        } else {
            Ok(())
        }
    }
}

} // verus!
