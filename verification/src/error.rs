//! The error taxonomy of the marketplace. Every error is terminal for the
//! request that raised it: the caller discards all state changes, so no
//! partial offering or partial settlement is ever observable.

use vstd::prelude::*;

verus! {

/// Why a request was rejected.
#[derive(Clone, Copy, Debug, PartialEq, Eq, Structural)]
pub enum ContractError {
    /// No live offering carries the given identifier.
    NotFound,
    /// The deposit notification carried no decodable listing price.
    MissingListingData,
    /// The offered amount is below the listing price.
    InsufficientFunds,
}

} // verus!
