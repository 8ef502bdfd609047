//! Response shapes of the public query surface.

use vstd::prelude::*;
use crate::Coin;

verus! {

/// The marketplace configuration, set once at initialization.
pub struct ContractInfoResponse {
    pub name: String,
}

/// One live offering as reported to clients.
pub struct QueryOfferingsResult {
    pub id: String,
    pub token_id: String,
    pub list_price: Coin,
    pub contract_addr: String,
    pub seller: String,
}

/// Every live offering, in ascending identifier order.
pub struct OfferingsResponse {
    pub offerings: Vec<QueryOfferingsResult>,
}

} // verus!
