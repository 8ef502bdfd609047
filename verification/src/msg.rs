//! The inbound request shapes and the outbound response shape.
//!
//! The host integration layer decodes wire payloads into these plain values
//! before calling in, and turns the returned instructions back into wire
//! messages afterwards.

use vstd::prelude::*;
use crate::Coin;

verus! {

/// Initialization request: names the marketplace.
pub struct InitMsg {
    pub name: String,
}

/// The listing payload attached to a deposit notification.
pub struct SellNft {
    pub list_price: Coin,
}

/// A deposit notification from the token-ownership system: `sender` is the
/// depositor (the seller), `token_id` the escrowed asset, and `msg` the
/// decoded listing payload — `None` when the notification carried no payload
/// or the payload did not decode.
pub struct ReceiveNftMsg {
    pub sender: String,
    pub token_id: String,
    pub msg: Option<SellNft>,
}

/// A state-changing request.
pub enum HandleMsg {
    /// A purchase request: the buyer, the payment offered, and the target
    /// offering.
    BuyNft { spender: String, amount: Coin, offering_id: String },
    /// A deposit notification, which lists the deposited token for sale.
    ReceiveNft(ReceiveNftMsg),
}

/// A read-only request.
pub enum QueryMsg {
    /// Enumerate all live offerings.
    GetOfferings {},
}

/// A count of something, for clients that want a plain number.
pub struct CountResponse {
    pub count: i32,
}

/// One key-value entry of the observable event a request emits.
pub struct Attribute {
    pub key: String,
    pub value: String,
}

/// An outbound instruction handed to the host ledger for execution.
pub enum CosmosMsg {
    /// Move native currency from one account to another.
    BankSend { from_address: String, to_address: String, amount: Vec<Coin> },
    /// Call another on-ledger system with an encoded request payload.
    WasmExecute { contract_addr: String, msg: Vec<u8>, send: Vec<Coin> },
}

/// What a successful state-changing request returns: the outbound
/// instructions to execute in the same unit of work, and the observable
/// event attributes.
pub struct HandleResponse {
    pub messages: Vec<CosmosMsg>,
    pub attributes: Vec<Attribute>,
}

} // verus!
