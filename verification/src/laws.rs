//! What holds of the ledger whatever is asked of it.
//!
//! A [`Call`] is one request to the token. The laws below speak of single
//! calls and of whole sequences of them, over the content of the ledger.

use crate::address::Address;
use crate::error::FtError;
use crate::metadata::MetadataView;
use crate::seed::{lemma_seeded_accounts, seeded};
use crate::supply::{
    lemma_total_of_bounds_pair, lemma_total_of_insert, lemma_total_of_remove,
    lemma_total_of_union_over_zero, total_of,
};
use crate::view::{AllowanceUpdateOp, LedgerView};
use vstd::prelude::*;

verus! {

/// A request that changes the ledger, with the account that makes it.
pub enum Call {
    AddAuthorizedCaller { caller: Address, owner: Address, authorized_caller: Address },
    Mint { caller: Address, recipient_id: Address, amount: u128 },
    Transfer { caller: Address, recipient_id: Address, amount: u128 },
    TransferFrom { caller: Address, sender_id: Address, recipient_id: Address, amount: u128 },
    Approve { caller: Address, spender_id: Address, amount: u128 },
    IncreaseAllowance { caller: Address, spender_id: Address, amount: u128 },
    DecreaseAllowance { caller: Address, spender_id: Address, amount: u128 },
}

impl LedgerView {
    /// What the call makes of the ledger, or why it is refused.
    pub open spec fn outcome(self, call: Call) -> Result<LedgerView, FtError> {
        match call {
            Call::AddAuthorizedCaller { caller, owner, authorized_caller } => {
                self.add_authorized_caller(caller, owner, authorized_caller)
            },
            Call::Mint { caller, recipient_id, amount } => {
                self.ft_mint(caller, recipient_id, amount)
            },
            Call::Transfer { caller, recipient_id, amount } => {
                self.ft_transfer(caller, recipient_id, amount)
            },
            Call::TransferFrom { caller, sender_id, recipient_id, amount } => {
                self.ft_transfer_from(caller, sender_id, recipient_id, amount)
            },
            Call::Approve { caller, spender_id, amount } => {
                self.ft_approve(caller, spender_id, amount)
            },
            Call::IncreaseAllowance { caller, spender_id, amount } => {
                self.ft_increase_allowance(caller, spender_id, amount)
            },
            Call::DecreaseAllowance { caller, spender_id, amount } => {
                self.ft_decrease_allowance(caller, spender_id, amount)
            },
        }
    }

    /// The ledger after the call: as it was, where the call is refused.
    pub open spec fn after(self, call: Call) -> LedgerView {
        match self.outcome(call) {
            Ok(next) => next,
            Err(_) => self,
        }
    }

    /// The ledger after the calls, made one after the other.
    pub open spec fn after_all(self, calls: Seq<Call>) -> LedgerView
        decreases calls.len(),
    {
        if calls.len() == 0 {
            self
        } else {
            self.after_all(calls.drop_last()).after(calls.last())
        }
    }
}

/// A ledger is created with balances that add up to its total supply,
/// with the metadata it was given, and with its owner as the only minter.
pub proof fn lemma_new_establishes(
    caller: Address,
    owner: Address,
    initialized: bool,
    metadata: MetadataView,
    account_ids: Seq<Address>,
    amounts: Seq<u128>,
)
    ensures
        LedgerView::new(caller, owner, initialized, metadata, account_ids, amounts) matches Ok(
            created,
        ) ==> {
            &&& created.conserved()
            &&& created.balances == seeded(account_ids, amounts)
            &&& created.metadata == metadata
            &&& metadata.valid()
            &&& created.authorized_callers == set![owner]
            &&& created.allowances == Map::<Address, Map<Address, u128>>::empty()
        },
{
    if LedgerView::new(caller, owner, initialized, metadata, account_ids, amounts) is Ok {
        lemma_seeded_accounts(account_ids, amounts);
        let seeds = seeded(account_ids, amounts);
        assert(Map::<Address, u128>::empty().union_prefer_right(seeds) =~= seeds);
    }
}

/// To seed a ledger whose balances add up to its total supply leaves one
/// whose balances do.
pub proof fn lemma_seeding_conserves(
    ledger: LedgerView,
    account_ids: Seq<Address>,
    amounts: Seq<u128>,
)
    requires
        ledger.conserved(),
    ensures
        ledger.initialize_balance_holders(account_ids, amounts) matches Ok(next)
            ==> next.conserved(),
{
    if ledger.initialize_balance_holders(account_ids, amounts) is Ok {
        lemma_seeded_accounts(account_ids, amounts);
        lemma_total_of_union_over_zero(ledger.balances, seeded(account_ids, amounts));
    }
}

/// No call breaks the balance between the accounts and the total supply.
pub proof fn lemma_call_conserves(ledger: LedgerView, call: Call)
    requires
        ledger.conserved(),
    ensures
        ledger.after(call).conserved(),
{
    match call {
        Call::Mint { caller, recipient_id, amount } => {
            lemma_mint_conserves(ledger, recipient_id, amount);
        },
        Call::Transfer { caller, recipient_id, amount } => {
            lemma_transfer_conserves(ledger, caller, recipient_id, amount);
        },
        Call::TransferFrom { caller, sender_id, recipient_id, amount } => {
            if amount != 0 {
                match ledger.allowance_update(AllowanceUpdateOp::Spend, sender_id, caller, amount) {
                    Ok(paid) => {
                        lemma_transfer_conserves(paid, sender_id, recipient_id, amount);
                    },
                    Err(_) => {},
                }
            }
        },
        _ => {},
    }
}

/// Minting adds the same amount to the sum of the balances and to the
/// total supply.
pub proof fn lemma_mint_conserves(ledger: LedgerView, recipient_id: Address, amount: u128)
    requires
        ledger.conserved(),
    ensures
        ledger.mint(recipient_id, amount) matches Ok(next) ==> next.conserved(),
{
    lemma_total_of_insert(
        ledger.balances,
        recipient_id,
        (ledger.balance_of(recipient_id) + amount) as u128,
    );
}

/// A transfer leaves the sum of the balances as it was.
pub proof fn lemma_transfer_conserves(
    ledger: LedgerView,
    sender_id: Address,
    recipient_id: Address,
    amount: u128,
)
    requires
        ledger.balances.dom().finite(),
    ensures
        ledger.transfer(sender_id, recipient_id, amount) matches Ok(next) ==> {
            &&& next.balances.dom().finite()
            &&& total_of(next.balances) == total_of(ledger.balances)
            &&& next.total_supply == ledger.total_supply
        },
{
    if ledger.transfer(sender_id, recipient_id, amount) is Ok {
        let debited = (ledger.balance_of(sender_id) - amount) as u128;
        let credited = (ledger.balance_of(recipient_id) + amount) as u128;
        lemma_total_of_insert(ledger.balances, sender_id, debited);
        lemma_total_of_insert(ledger.balances.insert(sender_id, debited), recipient_id, credited);
    }
}

/// In a ledger whose balances add up to its total supply no transfer can
/// push a balance out of the 128-bit range.
pub proof fn lemma_transfer_cannot_overflow(
    ledger: LedgerView,
    sender_id: Address,
    recipient_id: Address,
    amount: u128,
)
    requires
        ledger.conserved(),
    ensures
        ledger.transfer(sender_id, recipient_id, amount) != Err::<LedgerView, FtError>(
            FtError::ArithmeticOverflow,
        ),
{
    if sender_id != recipient_id {
        lemma_total_of_bounds_pair(ledger.balances, sender_id, recipient_id);
    }
}

/// A call never lowers the total supply, never takes the right to mint
/// from an account, and never touches the metadata.
pub proof fn lemma_call_keeps(ledger: LedgerView, call: Call)
    ensures
        ledger.after(call).total_supply >= ledger.total_supply,
        ledger.authorized_callers.subset_of(ledger.after(call).authorized_callers),
        ledger.after(call).metadata == ledger.metadata,
{
}

/// Only minting changes the total supply, and it adds the minted amount.
pub proof fn lemma_supply_changes_by_mint_only(ledger: LedgerView, call: Call)
    ensures
        ledger.after(call).total_supply == (match call {
            Call::Mint { caller, recipient_id, amount } if ledger.outcome(call) is Ok => {
                ledger.total_supply + amount
            },
            _ => ledger.total_supply as int,
        }),
{
}

/// Whatever calls are made, in whatever order: the balances of a ledger
/// that added up to its total supply still do, the total supply is no
/// less than it was, who could mint still can, and the metadata is the same.
pub proof fn lemma_calls_keep(ledger: LedgerView, calls: Seq<Call>)
    ensures
        ledger.conserved() ==> ledger.after_all(calls).conserved(),
        ledger.after_all(calls).total_supply >= ledger.total_supply,
        ledger.authorized_callers.subset_of(ledger.after_all(calls).authorized_callers),
        ledger.after_all(calls).metadata == ledger.metadata,
    decreases calls.len(),
{
    if calls.len() > 0 {
        let earlier = ledger.after_all(calls.drop_last());
        lemma_calls_keep(ledger, calls.drop_last());
        lemma_call_keeps(earlier, calls.last());
        if ledger.conserved() {
            lemma_call_conserves(earlier, calls.last());
        }
    }
}

/// Every state that a ledger can reach from its creation has balances
/// that add up to its total supply, and its owner may mint.
pub proof fn lemma_reachable_states(
    owner: Address,
    metadata: MetadataView,
    account_ids: Seq<Address>,
    amounts: Seq<u128>,
    calls: Seq<Call>,
)
    ensures
        LedgerView::new(owner, owner, false, metadata, account_ids, amounts) matches Ok(created)
            ==> {
            &&& created.after_all(calls).conserved()
            &&& created.after_all(calls).is_authorized_minter(owner)
            &&& created.after_all(calls).total_supply >= total_of(seeded(account_ids, amounts))
            &&& created.after_all(calls).metadata == metadata
        },
{
    match LedgerView::new(owner, owner, false, metadata, account_ids, amounts) {
        Ok(created) => {
            lemma_new_establishes(owner, owner, false, metadata, account_ids, amounts);
            lemma_calls_keep(created, calls);
        },
        Err(_) => {},
    }
}

/// To transfer from an account to itself is refused, whatever the account holds.
pub proof fn lemma_self_transfer_refused(ledger: LedgerView, account_id: Address, amount: u128)
    ensures
        ledger.transfer(account_id, account_id, amount) == Err::<LedgerView, FtError>(
            FtError::InvalidOperation,
        ),
        ledger.ft_transfer(account_id, account_id, amount) == Err::<LedgerView, FtError>(
            FtError::InvalidOperation,
        ),
{
}

/// A spender's transfer takes the amount from the owner's balance and from
/// the spender's allowance, gives it to the recipient, and leaves every
/// other balance and the total supply as they were.
pub proof fn lemma_transfer_from_moves(
    ledger: LedgerView,
    caller: Address,
    sender_id: Address,
    recipient_id: Address,
    amount: u128,
)
    ensures
        ledger.ft_transfer_from(caller, sender_id, recipient_id, amount) matches Ok(next) ==> {
            &&& next.balance_of(sender_id) == ledger.balance_of(sender_id) - amount
            &&& next.balance_of(recipient_id) == ledger.balance_of(recipient_id) + amount
            &&& next.allowance(sender_id, caller) == ledger.allowance(sender_id, caller) - amount
            &&& next.total_supply == ledger.total_supply
            &&& forall|other: Address|
                other != sender_id && other != recipient_id ==> next.balance_of(other)
                    == ledger.balance_of(other)
            &&& forall|owner: Address, spender: Address|
                owner != sender_id || spender != caller ==> next.allowance(owner, spender)
                    == ledger.allowance(owner, spender)
        },
{
}

/// To raise an allowance and then to lower it by the same amount gives
/// every allowance the value it had.
pub proof fn lemma_increase_then_decrease(
    ledger: LedgerView,
    caller: Address,
    spender_id: Address,
    amount: u128,
)
    ensures
        ledger.ft_increase_allowance(caller, spender_id, amount) matches Ok(raised) ==> {
            &&& raised.allowance(caller, spender_id) == ledger.allowance(caller, spender_id)
                + amount
            &&& raised.ft_decrease_allowance(caller, spender_id, amount) matches Ok(lowered)
            &&& forall|owner: Address, spender: Address|
                lowered.allowance(owner, spender) == ledger.allowance(owner, spender)
            &&& lowered.balances == ledger.balances
            &&& lowered.total_supply == ledger.total_supply
        },
{
}

/// To lower an allowance by more than it holds is refused.
pub proof fn lemma_decrease_below_zero_refused(
    ledger: LedgerView,
    caller: Address,
    spender_id: Address,
    amount: u128,
)
    requires
        ledger.may_grant(caller, spender_id) is Ok,
        ledger.allowances.contains_key(caller),
        ledger.allowance(caller, spender_id) < amount,
    ensures
        ledger.ft_decrease_allowance(caller, spender_id, amount) == Err::<LedgerView, FtError>(
            FtError::AllowanceTooSmall,
        ),
{
}

/// To mint fails where the total supply would leave the 128-bit range;
/// where the balances add up to the total supply, it fails for no other
/// reason once the caller may mint and the amount is not zero.
pub proof fn lemma_mint_boundary(
    ledger: LedgerView,
    caller: Address,
    recipient_id: Address,
    amount: u128,
)
    requires
        ledger.conserved(),
        ledger.is_authorized_minter(caller),
        amount != 0,
    ensures
        ledger.ft_mint(caller, recipient_id, amount) is Ok <==> ledger.total_supply + amount
            <= u128::MAX,
        ledger.ft_mint(caller, recipient_id, amount) is Err ==> ledger.ft_mint(
            caller,
            recipient_id,
            amount,
        ) == Err::<LedgerView, FtError>(FtError::ArithmeticOverflow),
{
    if ledger.balances.contains_key(recipient_id) {
        lemma_total_of_remove(ledger.balances, recipient_id);
    }
}

} // verus!
