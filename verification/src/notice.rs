//! What a successful operation asks its caller to announce.

use crate::address::Address;
use vstd::prelude::*;

verus! {

/// An event of the ledger, to be written to the log in words.
#[derive(Clone, Copy, Debug, PartialEq, Eq)]
pub enum Notice {
    /// `amount` new tokens were given to `recipient`.
    Minted { amount: u128, recipient: Address },
    /// `amount` tokens went from `sender` to `recipient`.
    Transferred { amount: u128, sender: Address, recipient: Address },
    /// `caller` may mint from now on.
    AuthorizedCallerAdded { caller: Address },
}

} // verus!
