//! A ledger-resident marketplace for non-fungible tokens: a seller deposits a
//! token into escrow with an asking price, a buyer purchases it by supplying
//! sufficient payment, and the sale settles atomically — the offering record
//! is removed and two outbound transfer instructions are produced in the same
//! unit of work.

pub mod contract;
pub mod error;
pub mod laws;
pub mod msg;
pub mod numeral;
pub mod package;
pub mod state;

use vstd::prelude::*;

verus! {

/// An amount of native currency: a numeric amount plus a denomination tag.
pub struct Coin {
    pub amount: u128,
    pub denom: String,
}

impl Clone for Coin {
    fn clone(&self) -> (r: Coin)
        ensures
            r == *self,
    {
        Coin { amount: self.amount, denom: self.denom.clone() }
    }
}

} // verus!
