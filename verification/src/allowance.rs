//! The spending limits that one owner has granted.

use crate::address::Address;
use crate::error::FtError;
use crate::supply::amount_at;
use std::collections::BTreeMap;
use vstd::prelude::*;

verus! {

/// For one owner, the amount that each spender may still move out of the
/// owner's balance. A spender without an entry may move nothing.
#[derive(Debug, PartialEq, Eq)]
pub struct FTAllowance {
    pub spenders: BTreeMap<Address, u128>,
}

impl View for FTAllowance {
    type V = Map<Address, u128>;

    open spec fn view(&self) -> Map<Address, u128> {
        self.spenders@
    }
}

/// What [`FTAllowance::increase`] makes of a table: the spender's limit
/// grows by `amount`, unless the sum leaves the 128-bit range.
pub open spec fn increased(
    spenders: Map<Address, u128>,
    spender_id: Address,
    amount: u128,
) -> Result<Map<Address, u128>, FtError> {
    let limit = amount_at(spenders, spender_id) + amount;
    if limit > u128::MAX {
        Err(FtError::ArithmeticOverflow)
    } else {
        Ok(spenders.insert(spender_id, limit as u128))
    }
}

/// What [`FTAllowance::spend`] makes of a table: the spender's limit
/// shrinks by `amount`, unless it is less than `amount`.
pub open spec fn spent(
    spenders: Map<Address, u128>,
    spender_id: Address,
    amount: u128,
) -> Result<Map<Address, u128>, FtError> {
    let limit = amount_at(spenders, spender_id);
    if limit < amount {
        Err(FtError::AllowanceTooSmall)
    } else {
        Ok(spenders.insert(spender_id, (limit - amount) as u128))
    }
}

impl Clone for FTAllowance {
    fn clone(&self) -> (copy: Self)
        ensures
            copy@ == self@,
    {
        FTAllowance { spenders: self.spenders.clone() }
    }
}

impl Default for FTAllowance {
    /// A table that grants nothing.
    fn default() -> (table: Self)
        ensures
            table@ == Map::<Address, u128>::empty(),
    {
        FTAllowance { spenders: BTreeMap::new() }
    }
}

impl FTAllowance {
    /// Sets the spender's limit to `amount`, whatever it was.
    pub fn set(&mut self, spender_id: Address, amount: u128)
        ensures
            final(self)@ == old(self)@.insert(spender_id, amount),
    {
        self.spenders.insert(spender_id, amount);
    }

    /// The spender's limit.
    pub fn get(&self, spender_id: &Address) -> (amount: u128)
        ensures
            amount == amount_at(self@, *spender_id),
    {
        match self.spenders.get(spender_id) {
            Some(amount) => *amount,
            None => 0,
        }
    }

    /// Raises the spender's limit by `amount`.
    pub fn increase(&mut self, spender_id: &Address, amount: u128) -> (result: Result<(), FtError>)
        ensures
            match increased(old(self)@, *spender_id, amount) {
                Ok(spenders) => result is Ok && final(self)@ == spenders,
                Err(error) => result == Err::<(), FtError>(error) && final(self)@ == old(self)@,
            },
    {
        match self.get(spender_id).checked_add(amount) {
            Some(limit) => {
                self.spenders.insert(*spender_id, limit);
                Ok(())
            },
            None => Err(FtError::ArithmeticOverflow),
        }
    }

    /// Lowers the spender's limit by `amount`: the same as spending it.
    pub fn decrease(&mut self, spender_id: &Address, amount: u128) -> (result: Result<(), FtError>)
        ensures
            match spent(old(self)@, *spender_id, amount) {
                Ok(spenders) => result is Ok && final(self)@ == spenders,
                Err(error) => result == Err::<(), FtError>(error) && final(self)@ == old(self)@,
            },
    {
        self.spend(spender_id, amount)
    }

    /// Takes `amount` off the spender's limit.
    pub fn spend(&mut self, spender_id: &Address, amount: u128) -> (result: Result<(), FtError>)
        ensures
            match spent(old(self)@, *spender_id, amount) {
                Ok(spenders) => result is Ok && final(self)@ == spenders,
                Err(error) => result == Err::<(), FtError>(error) && final(self)@ == old(self)@,
            },
    {
        let limit = self.get(spender_id);
        if limit < amount {
            return Err(FtError::AllowanceTooSmall);
        }
        self.spenders.insert(*spender_id, limit - amount);
        Ok(())
    }
}

} // verus!
