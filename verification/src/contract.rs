//! The operations that the token offers to the outside.
//!
//! Each takes the account that makes the call, checks what the caller must
//! fulfil, and hands the work on to the ledger's parts. A refused call
//! leaves the ledger as it was.

use crate::address::Address;
use crate::error::FtError;
use crate::ledger::{same_account, L1xFtErc20};
use crate::metadata::{FTMetadata, MetadataView};
use crate::notice::Notice;
use crate::view::{AllowanceUpdateOp, LedgerView};
use std::collections::{BTreeMap, BTreeSet};
use vstd::prelude::*;

verus! {

impl LedgerView {
    /// Creates the ledger. Only `owner`, the account that deployed the
    /// token, may do so, and only once.
    pub open spec fn new(
        caller: Address,
        owner: Address,
        initialized: bool,
        metadata: MetadataView,
        account_ids: Seq<Address>,
        amounts: Seq<u128>,
    ) -> Result<LedgerView, FtError> {
        if caller != owner {
            Err(FtError::Unauthorized)
        } else if initialized {
            Err(FtError::AlreadyInitialized)
        } else if !metadata.valid() {
            Err(FtError::InvalidMetadata)
        } else {
            LedgerView::empty(metadata, owner).initialize_balance_holders(account_ids, amounts)
        }
    }

    /// Lets `authorized_caller` mint. Only `owner` may grant this.
    pub open spec fn add_authorized_caller(
        self,
        caller: Address,
        owner: Address,
        authorized_caller: Address,
    ) -> Result<LedgerView, FtError> {
        if caller != owner {
            Err(FtError::Unauthorized)
        } else if self.authorized_callers.contains(authorized_caller) {
            Err(FtError::AlreadyAuthorized)
        } else {
            Ok(
                LedgerView {
                    authorized_callers: self.authorized_callers.insert(authorized_caller),
                    ..self
                },
            )
        }
    }

    /// `caller` creates `amount` tokens for `recipient_id`.
    pub open spec fn ft_mint(
        self,
        caller: Address,
        recipient_id: Address,
        amount: u128,
    ) -> Result<LedgerView, FtError> {
        if !self.is_authorized_minter(caller) {
            Err(FtError::Unauthorized)
        } else if amount == 0 {
            Err(FtError::InvalidOperation)
        } else {
            self.mint(recipient_id, amount)
        }
    }

    /// `caller` sends `amount` of its tokens to `recipient_id`.
    pub open spec fn ft_transfer(
        self,
        caller: Address,
        recipient_id: Address,
        amount: u128,
    ) -> Result<LedgerView, FtError> {
        if amount == 0 {
            Err(FtError::InvalidOperation)
        } else {
            self.transfer(caller, recipient_id, amount)
        }
    }

    /// `caller` sends `amount` of the tokens of `sender_id` to
    /// `recipient_id`, and uses up that much of its allowance.
    pub open spec fn ft_transfer_from(
        self,
        caller: Address,
        sender_id: Address,
        recipient_id: Address,
        amount: u128,
    ) -> Result<LedgerView, FtError> {
        if amount == 0 {
            Err(FtError::InvalidOperation)
        } else {
            match self.allowance_update(AllowanceUpdateOp::Spend, sender_id, caller, amount) {
                Ok(paid) => paid.transfer(sender_id, recipient_id, amount),
                Err(error) => Err(error),
            }
        }
    }

    /// What a caller must fulfil to change the allowance of `spender_id`:
    /// it is another account, and the caller holds tokens.
    pub open spec fn may_grant(self, caller: Address, spender_id: Address) -> Result<(), FtError> {
        if caller == spender_id {
            Err(FtError::InvalidOperation)
        } else {
            self.assert_if_no_balance(caller)
        }
    }

    /// `caller` lets `spender_id` move up to `amount` of its tokens.
    pub open spec fn ft_approve(
        self,
        caller: Address,
        spender_id: Address,
        amount: u128,
    ) -> Result<LedgerView, FtError> {
        match self.may_grant(caller, spender_id) {
            Ok(()) => self.allowance_update(
                AllowanceUpdateOp::Overwrite,
                caller,
                spender_id,
                amount,
            ),
            Err(error) => Err(error),
        }
    }

    /// `caller` raises the allowance of `spender_id` by `amount`.
    pub open spec fn ft_increase_allowance(
        self,
        caller: Address,
        spender_id: Address,
        amount: u128,
    ) -> Result<LedgerView, FtError> {
        if amount == 0 {
            Err(FtError::InvalidOperation)
        } else {
            match self.may_grant(caller, spender_id) {
                Ok(()) => self.allowance_update(
                    AllowanceUpdateOp::Increase,
                    caller,
                    spender_id,
                    amount,
                ),
                Err(error) => Err(error),
            }
        }
    }

    /// `caller` lowers the allowance of `spender_id` by `amount`.
    pub open spec fn ft_decrease_allowance(
        self,
        caller: Address,
        spender_id: Address,
        amount: u128,
    ) -> Result<LedgerView, FtError> {
        if amount == 0 {
            Err(FtError::InvalidOperation)
        } else {
            match self.may_grant(caller, spender_id) {
                Ok(()) => self.allowance_update(
                    AllowanceUpdateOp::Decrease,
                    caller,
                    spender_id,
                    amount,
                ),
                Err(error) => Err(error),
            }
        }
    }
}

impl L1xFtErc20 {
    /// Creates the ledger with the given balances, and lets `owner` mint.
    /// Fails with [`FtError::Unauthorized`] unless `caller` is `owner`, with
    /// [`FtError::AlreadyInitialized`] where `initialized` says that a
    /// ledger exists, with [`FtError::InvalidMetadata`] where the metadata
    /// asks for more than 18 decimals, and as
    /// [`L1xFtErc20::initialize_balance_holders`] does.
    pub fn new(
        caller: Address,
        owner: Address,
        initialized: bool,
        metadata: FTMetadata,
        account_ids: Vec<Address>,
        amounts: Vec<u128>,
    ) -> (result: Result<L1xFtErc20, FtError>)
        ensures
            match LedgerView::new(caller, owner, initialized, metadata@, account_ids@, amounts@) {
                Ok(next) => result matches Ok(contract) && contract@ == next,
                Err(error) => result matches Err(refusal) && refusal == error,
            },
            result matches Ok(contract) ==> contract@.conserved(),
    {
        if !same_account(&caller, &owner) {
            return Err(FtError::Unauthorized);
        }
        if initialized {
            return Err(FtError::AlreadyInitialized);
        }
        if !metadata.is_valid() {
            return Err(FtError::InvalidMetadata);
        }
        let mut authorized_callers: BTreeSet<Address> = BTreeSet::new();
        authorized_callers.insert(owner);
        let mut contract = L1xFtErc20 {
            metadata,
            balances: BTreeMap::new(),
            allowances: BTreeMap::new(),
            total_supply: 0,
            authorized_callers,
        };
        proof {
            assert(contract@ =~~= LedgerView::empty(metadata@, owner));
        }
        match contract.initialize_balance_holders(account_ids, amounts) {
            Ok(()) => Ok(contract),
            Err(error) => Err(error),
        }
    }

    /// The ledger that was found in the store. Fails with
    /// [`FtError::NotInitialized`] where none was found.
    pub fn load(stored: Option<L1xFtErc20>) -> (result: Result<L1xFtErc20, FtError>)
        ensures
            result == (match stored {
                Some(contract) => Ok::<L1xFtErc20, FtError>(contract),
                None => Err::<L1xFtErc20, FtError>(FtError::NotInitialized),
            }),
    {
        match stored {
            Some(contract) => Ok(contract),
            None => Err(FtError::NotInitialized),
        }
    }

    /// Lets `authorized_caller` mint. Fails with [`FtError::Unauthorized`]
    /// unless `caller` is `owner`, and with [`FtError::AlreadyAuthorized`]
    /// where the account may mint already.
    pub fn add_authorized_caller(
        &mut self,
        caller: Address,
        owner: Address,
        authorized_caller: Address,
    ) -> (result: Result<Notice, FtError>)
        ensures
            match old(self)@.add_authorized_caller(caller, owner, authorized_caller) {
                Ok(next) => {
                    &&& result == Ok::<Notice, FtError>(
                        Notice::AuthorizedCallerAdded { caller: authorized_caller },
                    )
                    &&& final(self)@ == next
                },
                Err(error) => result == Err::<Notice, FtError>(error) && final(self)@ == old(self)@,
            },
            old(self)@.conserved() ==> final(self)@.conserved(),
            final(self)@.total_supply >= old(self)@.total_supply,
    {
        if !same_account(&owner, &caller) {
            return Err(FtError::Unauthorized);
        }
        if self.authorized_callers.contains(&authorized_caller) {
            return Err(FtError::AlreadyAuthorized);
        }
        self.authorized_callers.insert(authorized_caller);
        Ok(Notice::AuthorizedCallerAdded { caller: authorized_caller })
    }

    /// The token's name.
    pub fn ft_name(&self) -> (name: String)
        ensures
            name@ == self@.metadata.name,
    {
        self.metadata.name.clone()
    }

    /// The token's symbol.
    pub fn ft_symbol(&self) -> (symbol: String)
        ensures
            symbol@ == self@.metadata.symbol,
    {
        self.metadata.symbol.clone()
    }

    /// The number of decimals that an amount is shown with.
    pub fn ft_decimals(&self) -> (decimals: u8)
        ensures
            decimals == self@.metadata.decimals,
    {
        self.metadata.decimals
    }

    /// The token's icon, if it has one.
    pub fn ft_icon(&self) -> (icon: Option<String>)
        ensures
            match icon {
                Some(text) => self@.metadata.icon == Some(text@),
                None => self@.metadata.icon is None,
            },
    {
        match &self.metadata.icon {
            Some(icon) => Some(icon.clone()),
            None => None,
        }
    }

    /// The whole description of the token.
    pub fn ft_metadata(&self) -> (metadata: FTMetadata)
        ensures
            metadata@ == self@.metadata,
    {
        self.metadata.clone()
    }

    /// `caller` creates `amount` tokens for `recipient_id`. Fails with
    /// [`FtError::Unauthorized`] unless `caller` may mint, with
    /// [`FtError::InvalidOperation`] where `amount` is zero, and as
    /// [`L1xFtErc20::mint`] does.
    pub fn ft_mint(
        &mut self,
        caller: Address,
        recipient_id: Address,
        amount: u128,
    ) -> (result: Result<Notice, FtError>)
        ensures
            match old(self)@.ft_mint(caller, recipient_id, amount) {
                Ok(next) => {
                    &&& result == Ok::<Notice, FtError>(
                        Notice::Minted { amount, recipient: recipient_id },
                    )
                    &&& final(self)@ == next
                },
                Err(error) => result == Err::<Notice, FtError>(error) && final(self)@ == old(self)@,
            },
            old(self)@.conserved() ==> final(self)@.conserved(),
            final(self)@.total_supply >= old(self)@.total_supply,
    {
        if !self.is_authorized_minter(&caller) {
            return Err(FtError::Unauthorized);
        }
        if amount == 0 {
            return Err(FtError::InvalidOperation);
        }
        self.mint(&recipient_id, amount)
    }

    /// `caller` sends `amount` of its tokens to `recipient_id`. Fails with
    /// [`FtError::InvalidOperation`] where `amount` is zero, and as
    /// [`L1xFtErc20::transfer`] does.
    pub fn ft_transfer(
        &mut self,
        caller: Address,
        recipient_id: Address,
        amount: u128,
    ) -> (result: Result<Notice, FtError>)
        ensures
            match old(self)@.ft_transfer(caller, recipient_id, amount) {
                Ok(next) => {
                    &&& result == Ok::<Notice, FtError>(
                        Notice::Transferred { amount, sender: caller, recipient: recipient_id },
                    )
                    &&& final(self)@ == next
                },
                Err(error) => result == Err::<Notice, FtError>(error) && final(self)@ == old(self)@,
            },
            old(self)@.conserved() ==> final(self)@.conserved(),
            final(self)@.total_supply >= old(self)@.total_supply,
    {
        if amount == 0 {
            return Err(FtError::InvalidOperation);
        }
        self.transfer(&caller, &recipient_id, amount)
    }

    /// `caller` sends `amount` of the tokens of `sender_id` to
    /// `recipient_id`, out of what `sender_id` has allowed it to spend.
    /// Fails with [`FtError::InvalidOperation`] where `amount` is zero, as
    /// spending the allowance does, and as [`L1xFtErc20::transfer`] does;
    /// where the transfer is refused, the allowance is not spent.
    pub fn ft_transfer_from(
        &mut self,
        caller: Address,
        sender_id: Address,
        recipient_id: Address,
        amount: u128,
    ) -> (result: Result<Notice, FtError>)
        ensures
            match old(self)@.ft_transfer_from(caller, sender_id, recipient_id, amount) {
                Ok(next) => {
                    &&& result == Ok::<Notice, FtError>(
                        Notice::Transferred { amount, sender: sender_id, recipient: recipient_id },
                    )
                    &&& final(self)@ == next
                },
                Err(error) => result == Err::<Notice, FtError>(error) && final(self)@ == old(self)@,
            },
            old(self)@.conserved() ==> final(self)@.conserved(),
            final(self)@.total_supply >= old(self)@.total_supply,
    {
        if amount == 0 {
            return Err(FtError::InvalidOperation);
        }
        match self.allowances.get(&sender_id) {
            Some(allowance) => {
                if allowance.get(&caller) < amount {
                    return Err(FtError::AllowanceTooSmall);
                }
            },
            None => {
                return Err(FtError::NoAllowance);
            },
        }
        match self.transfer_balances(&sender_id, &recipient_id, amount) {
            Ok(_) => {},
            Err(error) => {
                return Err(error);
            },
        }
        match self.allowance_update(AllowanceUpdateOp::Spend, &sender_id, &caller, amount) {
            Ok(()) => {},
            Err(error) => {
                return Err(error);
            },
        }
        self.transfer(&sender_id, &recipient_id, amount)
    }

    /// The number of tokens in existence.
    pub fn ft_total_supply(&self) -> (total_supply: u128)
        ensures
            total_supply == self@.total_supply,
    {
        self.total_supply
    }

    /// The balance of `account_id`: zero where the ledger records none.
    pub fn ft_balance_of(&self, account_id: Address) -> (balance: u128)
        ensures
            balance == self@.balance_of(account_id),
    {
        match self.balance_of(&account_id) {
            Some(balance) => balance,
            None => 0,
        }
    }

    /// Whether `caller` may change the allowance of `spender_id`.
    fn may_grant(&self, caller: &Address, spender_id: &Address) -> (result: Result<(), FtError>)
        ensures
            result == self@.may_grant(*caller, *spender_id),
    {
        if same_account(caller, spender_id) {
            return Err(FtError::InvalidOperation);
        }
        self.assert_if_no_balance(caller)
    }

    /// `caller` lets `spender_id` move up to `amount` of its tokens,
    /// whatever the limit was. Fails with [`FtError::InvalidOperation`]
    /// where the two are the same account, and with [`FtError::NoBalance`]
    /// where `caller` holds no tokens.
    pub fn ft_approve(
        &mut self,
        caller: Address,
        spender_id: Address,
        amount: u128,
    ) -> (result: Result<(), FtError>)
        ensures
            match old(self)@.ft_approve(caller, spender_id, amount) {
                Ok(next) => result is Ok && final(self)@ == next,
                Err(error) => result == Err::<(), FtError>(error) && final(self)@ == old(self)@,
            },
            old(self)@.conserved() ==> final(self)@.conserved(),
            final(self)@.total_supply >= old(self)@.total_supply,
    {
        match self.may_grant(&caller, &spender_id) {
            Ok(()) => {
                self.allowance_update(AllowanceUpdateOp::Overwrite, &caller, &spender_id, amount)
            },
            Err(error) => Err(error),
        }
    }

    /// `caller` raises the allowance of `spender_id` by `amount`. Fails
    /// with [`FtError::InvalidOperation`] where `amount` is zero or the two
    /// are the same account, with [`FtError::NoBalance`] where `caller`
    /// holds no tokens, and with [`FtError::ArithmeticOverflow`] where the
    /// limit would leave the 128-bit range.
    pub fn ft_increase_allowance(
        &mut self,
        caller: Address,
        spender_id: Address,
        amount: u128,
    ) -> (result: Result<(), FtError>)
        ensures
            match old(self)@.ft_increase_allowance(caller, spender_id, amount) {
                Ok(next) => result is Ok && final(self)@ == next,
                Err(error) => result == Err::<(), FtError>(error) && final(self)@ == old(self)@,
            },
            old(self)@.conserved() ==> final(self)@.conserved(),
            final(self)@.total_supply >= old(self)@.total_supply,
    {
        if amount == 0 {
            return Err(FtError::InvalidOperation);
        }
        match self.may_grant(&caller, &spender_id) {
            Ok(()) => {
                self.allowance_update(AllowanceUpdateOp::Increase, &caller, &spender_id, amount)
            },
            Err(error) => Err(error),
        }
    }

    /// `caller` lowers the allowance of `spender_id` by `amount`. Fails
    /// with [`FtError::InvalidOperation`] where `amount` is zero or the two
    /// are the same account, with [`FtError::NoBalance`] where `caller`
    /// holds no tokens, with [`FtError::NoAllowance`] where `caller` has
    /// granted no limit at all, and with [`FtError::AllowanceTooSmall`]
    /// where the limit is less than `amount`.
    pub fn ft_decrease_allowance(
        &mut self,
        caller: Address,
        spender_id: Address,
        amount: u128,
    ) -> (result: Result<(), FtError>)
        ensures
            match old(self)@.ft_decrease_allowance(caller, spender_id, amount) {
                Ok(next) => result is Ok && final(self)@ == next,
                Err(error) => result == Err::<(), FtError>(error) && final(self)@ == old(self)@,
            },
            old(self)@.conserved() ==> final(self)@.conserved(),
            final(self)@.total_supply >= old(self)@.total_supply,
    {
        if amount == 0 {
            return Err(FtError::InvalidOperation);
        }
        match self.may_grant(&caller, &spender_id) {
            Ok(()) => {
                self.allowance_update(AllowanceUpdateOp::Decrease, &caller, &spender_id, amount)
            },
            Err(error) => Err(error),
        }
    }

    /// What `spender_id` may still move out of the balance of `owner_id`:
    /// zero where the ledger records no limit.
    pub fn ft_allowance(&self, owner_id: Address, spender_id: Address) -> (amount: u128)
        ensures
            amount == self@.allowance(owner_id, spender_id),
    {
        match self.allowances.get(&owner_id) {
            Some(allowance) => allowance.get(&spender_id),
            None => 0,
        }
    }
}

} // verus!
