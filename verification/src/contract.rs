//! The request handlers: listing, settlement, and the query surface.
//!
//! Each handler is a function from the current store and one request to a new
//! store and a response, or to an error. The host commits the new store and
//! dispatches the returned instructions only on success, and discards both on
//! an error, so every request is all-or-nothing.

use vstd::prelude::*;
use crate::Coin;
use crate::error::ContractError;
use crate::msg::{Attribute, CosmosMsg, HandleMsg, HandleResponse, InitMsg, QueryMsg, ReceiveNftMsg};
use crate::numeral::dec_str;
use crate::package::{ContractInfoResponse, OfferingsResponse, QueryOfferingsResult};
use crate::state::{has_id, increment_offerings, index_of_id, Offering, Store};

verus! {

/// The JSON encoding of the cross-system transfer request that asks the
/// token-ownership system to hand `token_id` to `recipient`. Opaque here;
/// fixed by the two arguments alone.
pub uninterp spec fn transfer_nft_encoding(recipient: Seq<char>, token_id: Seq<char>) -> Seq<u8>;

/// Relies on cosmwasm_std::to_json_vec applied to cw721's transfer message
/// (Cw721ExecuteMsg::TransferNft): serde_json serialization of an enum variant
/// holding two plain strings, which is deterministic in those strings and
/// cannot fail on them.
#[verifier::external_body]
fn encode_transfer_nft(recipient: &String, token_id: &String) -> (r: Vec<u8>)
    ensures
        r@ == transfer_nft_encoding(recipient@, token_id@),
{
    let message = cw721::msg::Cw721ExecuteMsg::<
        Option<cosmwasm_std::Empty>,
        Option<cosmwasm_std::Empty>,
        cosmwasm_std::Empty,
    >::TransferNft { recipient: recipient.clone(), token_id: token_id.clone() };
    cosmwasm_std::to_json_vec(&message).unwrap()
}

/// One event attribute.
fn attr(key: &str, value: String) -> (a: Attribute)
    ensures
        a.key@ == key@,
        a.value == value,
{
    Attribute { key: String::from_str(key), value }
}

/// The two stores hold exactly the same state.
pub open spec fn unchanged(s0: Store, s1: Store) -> bool {
    &&& s1.entries() == s0.entries()
    &&& s1.counter() == s0.counter()
    &&& s1.info() == s0.info()
    &&& s1.config_cell() == s0.config_cell()
}

/// What a successful settlement returns: the payment instruction, the
/// transfer instruction directed at the asset system, and the event.
pub open spec fn buy_response(resp: HandleResponse, off: Offering, spender: String, paid: Coin) -> bool {
    &&& resp.messages@.len() == 2
    &&& resp.messages@[0] matches CosmosMsg::BankSend { from_address, to_address, amount: funds }
        && from_address == spender
        && to_address == off.seller
        && funds@ == seq![paid]
    &&& resp.messages@[1] matches CosmosMsg::WasmExecute { contract_addr, msg, send }
        && contract_addr == off.contract_addr
        && msg@ == transfer_nft_encoding(spender@, off.token_id@)
        && send@ == Seq::<Coin>::empty()
    &&& resp.attributes@.len() == 5
    &&& resp.attributes@[0].key@ == "action"@ && resp.attributes@[0].value@ == "buy_nft"@
    &&& resp.attributes@[1].key@ == "buyer"@ && resp.attributes@[1].value == spender
    &&& resp.attributes@[2].key@ == "seller"@ && resp.attributes@[2].value == off.seller
    &&& resp.attributes@[3].key@ == "token_id"@ && resp.attributes@[3].value == off.token_id
    &&& resp.attributes@[4].key@ == "contract_addr"@ && resp.attributes@[4].value
        == off.contract_addr
}

/// Everything a purchase request may do. An unknown identifier or an offered
/// amount below the listing price rejects the request and leaves the store
/// exactly as it was; otherwise the one matching offering is deleted and the
/// two transfer instructions are returned. Only the numeric amount is
/// compared: the denomination is not validated against the listing price.
pub open spec fn buy_post(
    s0: Store,
    s1: Store,
    r: Result<HandleResponse, ContractError>,
    spender: String,
    amount: Coin,
    offering_id: String,
) -> bool {
    if !has_id(s0.entries(), offering_id@) {
        &&& r matches Err(e) && e == ContractError::NotFound
        &&& unchanged(s0, s1)
    } else {
        let i = index_of_id(s0.entries(), offering_id@);
        let off = s0.entries()[i].1;
        if amount.amount < off.list_price.amount {
            &&& r matches Err(e) && e == ContractError::InsufficientFunds
            &&& unchanged(s0, s1)
        } else {
            &&& r matches Ok(resp) && buy_response(resp, off, spender, amount)
            &&& s1.entries() == s0.entries().remove(i)
            &&& s1.counter() == s0.counter()
            &&& s1.info() == s0.info()
            &&& s1.config_cell() == s0.config_cell()
        }
    }
}

/// What a successful listing returns: no instructions, and the event naming
/// the asset system, the seller, the price and the token.
pub open spec fn receive_response(
    resp: HandleResponse,
    sender: String,
    rcv: ReceiveNftMsg,
    price: Coin,
) -> bool {
    &&& resp.messages@.len() == 0
    &&& resp.attributes@.len() == 5
    &&& resp.attributes@[0].key@ == "action"@ && resp.attributes@[0].value@ == "sell_nft"@
    &&& resp.attributes@[1].key@ == "original_contract"@ && resp.attributes@[1].value == sender
    &&& resp.attributes@[2].key@ == "seller"@ && resp.attributes@[2].value == rcv.sender
    &&& resp.attributes@[3].key@ == "list_price"@ && resp.attributes@[3].value@
        == dec_str(price.amount as nat) + seq![' '] + price.denom@
    &&& resp.attributes@[4].key@ == "token_id"@ && resp.attributes@[4].value == rcv.token_id
}

/// Everything a deposit notification may do. Without a decoded listing
/// payload the deposit is rejected and the store left exactly as it was;
/// otherwise the counter mints the next identifier and the new offering is
/// appended, taking the asset system's address from the verified sender of
/// the notification, never from its body.
pub open spec fn receive_post(
    s0: Store,
    s1: Store,
    r: Result<HandleResponse, ContractError>,
    sender: String,
    rcv: ReceiveNftMsg,
) -> bool {
    match rcv.msg {
        Option::None => {
            &&& r matches Err(e) && e == ContractError::MissingListingData
            &&& unchanged(s0, s1)
        },
        Option::Some(sell) => {
            &&& s1.counter() == s0.counter() + 1
            &&& s1.entries() == s0.entries().push(
                (
                    (s0.counter() + 1) as u64,
                    (Offering {
                        token_id: rcv.token_id,
                        contract_addr: sender,
                        seller: rcv.sender,
                        list_price: sell.list_price,
                    }),
                ),
            )
            &&& s1.info() == s0.info()
            &&& s1.config_cell() == s0.config_cell()
            &&& r matches Ok(resp) && receive_response(resp, sender, rcv, sell.list_price)
        },
    }
}

/// One reported offering agrees with one stored entry.
pub open spec fn query_record_matches(rec: QueryOfferingsResult, e: (u64, Offering)) -> bool {
    &&& rec.id@ == dec_str(e.0 as nat)
    &&& rec.token_id == e.1.token_id
    &&& rec.list_price == e.1.list_price
    &&& rec.contract_addr == e.1.contract_addr
    &&& rec.seller == e.1.seller
}

/// The report lists every live offering, in storage order.
pub open spec fn query_matches(resp: OfferingsResponse, s: Seq<(u64, Offering)>) -> bool {
    &&& resp.offerings@.len() == s.len()
    &&& forall|i: int|
        0 <= i < s.len() ==> query_record_matches(#[trigger] resp.offerings@[i], s[i])
}

/// Initialize the marketplace: record its name. Nothing else changes.
pub fn init(store: &mut Store, msg: InitMsg) -> (r: Result<(), ContractError>)
    ensures
        r is Ok,
        final(store).info() == Some((ContractInfoResponse { name: msg.name })),
        final(store).entries() == old(store).entries(),
        final(store).counter() == old(store).counter(),
        final(store).config_cell() == old(store).config_cell(),
        old(store).wf() ==> final(store).wf(),
{
    store.set_contract_info(ContractInfoResponse { name: msg.name });
    Ok(())
}

/// Dispatch one state-changing request.
pub fn handle(store: &mut Store, sender: String, msg: HandleMsg) -> (r: Result<
    HandleResponse,
    ContractError,
>)
    requires
        old(store).wf(),
        msg matches HandleMsg::ReceiveNft(_) ==> old(store).counter() < u64::MAX,
    ensures
        final(store).wf(),
        match msg {
            HandleMsg::BuyNft { spender, amount, offering_id } => buy_post(
                *old(store),
                *final(store),
                r,
                spender,
                amount,
                offering_id,
            ),
            HandleMsg::ReceiveNft(rcv) => receive_post(*old(store), *final(store), r, sender, rcv),
        },
{
    match msg {
        HandleMsg::BuyNft { spender, amount, offering_id } => execute_buy_nft(
            store,
            spender,
            amount,
            offering_id,
        ),
        HandleMsg::ReceiveNft(rcv) => try_receive_nft(store, sender, rcv),
    }
}

/// Settle a purchase: validate the offering and the payment, and on success
/// delete the offering and return the payment instruction to the seller and
/// the transfer instruction to the asset system, to take effect in the same
/// unit of work.
pub fn execute_buy_nft(
    store: &mut Store,
    spender: String,
    amount: Coin,
    offering_id: String,
) -> (r: Result<HandleResponse, ContractError>)
    requires
        old(store).wf(),
    ensures
        final(store).wf(),
        buy_post(*old(store), *final(store), r, spender, amount, offering_id),
{
    let list_amount = match store.get(&offering_id) {
        Some(off) => off.list_price.amount,
        None => {
            return Err(ContractError::NotFound);
        },
    };

    if amount.amount < list_amount {
        return Err(ContractError::InsufficientFunds);
    }

    // the lookup above succeeded and nothing has changed since, so this
    // deletion cannot miss
    let (_id, off) = match store.remove(&offering_id) {
        Some(e) => e,
        None => {
            return Err(ContractError::NotFound);
        },
    };

    let bytes = encode_transfer_nft(&spender, &off.token_id);

    let mut pay: Vec<Coin> = Vec::new();
    pay.push(amount);
    let mut messages: Vec<CosmosMsg> = Vec::new();
    messages.push(
        CosmosMsg::BankSend {
            from_address: spender.clone(),
            to_address: off.seller.clone(),
            amount: pay,
        },
    );
    messages.push(
        CosmosMsg::WasmExecute {
            contract_addr: off.contract_addr.clone(),
            msg: bytes,
            send: Vec::new(),
        },
    );

    let mut attributes: Vec<Attribute> = Vec::new();
    attributes.push(attr("action", String::from_str("buy_nft")));
    attributes.push(attr("buyer", spender));
    attributes.push(attr("seller", off.seller));
    attributes.push(attr("token_id", off.token_id));
    attributes.push(attr("contract_addr", off.contract_addr));

    Ok(HandleResponse { messages, attributes })
}

/// List a deposited token for sale: mint the next identifier and append the
/// offering, priced by the decoded listing payload. The asset system's
/// address is the verified sender of the notification.
pub fn try_receive_nft(store: &mut Store, sender: String, rcv_msg: ReceiveNftMsg) -> (r: Result<
    HandleResponse,
    ContractError,
>)
    requires
        old(store).wf(),
        old(store).counter() < u64::MAX,
    ensures
        final(store).wf(),
        receive_post(*old(store), *final(store), r, sender, rcv_msg),
{
    let ReceiveNftMsg { sender: seller, token_id, msg } = rcv_msg;
    let sell = match msg {
        Some(s) => s,
        None => {
            return Err(ContractError::MissingListingData);
        },
    };

    let id = increment_offerings(store);

    let mut price_str = crate::numeral::u128_to_dec(sell.list_price.amount);
    proof {
        reveal_strlit(" ");
        assert(" "@ =~= seq![' ']);
    }
    price_str.append(" ");
    price_str.append(sell.list_price.denom.as_str());

    let off = Offering {
        token_id: token_id.clone(),
        contract_addr: sender.clone(),
        seller: seller.clone(),
        list_price: sell.list_price,
    };
    store.put(id, off);

    let mut attributes: Vec<Attribute> = Vec::new();
    attributes.push(attr("action", String::from_str("sell_nft")));
    attributes.push(attr("original_contract", sender));
    attributes.push(attr("seller", seller));
    attributes.push(attr("list_price", price_str));
    attributes.push(attr("token_id", token_id));

    Ok(HandleResponse { messages: Vec::new(), attributes })
}

/// Answer one read-only request. Pure: the store is only read.
pub fn query(store: &Store, msg: QueryMsg) -> (r: Result<OfferingsResponse, ContractError>)
    ensures
        r matches Ok(resp) && query_matches(resp, store.entries()),
{
    match msg {
        QueryMsg::GetOfferings {} => Ok(query_offerings(store)),
    }
}

/// Materialize every live offering, in ascending identifier order.
pub fn query_offerings(store: &Store) -> (r: OfferingsResponse)
    ensures
        query_matches(r, store.entries()),
{
    let entries = store.list_all();
    let n = entries.len();
    let mut offerings: Vec<QueryOfferingsResult> = Vec::new();
    for i in 0..n
        invariant
            n == entries@.len(),
            entries@ == store.entries(),
            offerings@.len() == i,
            forall|k: int|
                0 <= k < i ==> query_record_matches(
                    #[trigger] offerings@[k],
                    store.entries()[k],
                ),
    {
        let rec = parse_offering(entries[i].0, &entries[i].1);
        offerings.push(rec);
    }
    OfferingsResponse { offerings }
}

/// Convert one stored entry to its reported form, rendering the identifier
/// in decimal.
pub fn parse_offering(id: u64, offering: &Offering) -> (r: QueryOfferingsResult)
    ensures
        query_record_matches(r, (id, *offering)),
{
    QueryOfferingsResult {
        id: crate::numeral::u64_to_dec(id),
        token_id: offering.token_id.clone(),
        list_price: offering.list_price.clone(),
        contract_addr: offering.contract_addr.clone(),
        seller: offering.seller.clone(),
    }
}

} // verus!
