use nft_marketplace::contract::{execute_buy_nft, handle, init, query, query_offerings, try_receive_nft};
use nft_marketplace::error::ContractError;
use nft_marketplace::msg::{CosmosMsg, CountResponse, HandleMsg, HandleResponse, InitMsg, QueryMsg, ReceiveNftMsg, SellNft};
use nft_marketplace::state::{config, config_read, increment_offerings, num_offerings, State, Store};
use nft_marketplace::Coin;

fn coin(amount: u128, denom: &str) -> Coin {
    Coin { amount, denom: denom.to_string() }
}

fn deposit(seller: &str, token_id: &str, price: Option<Coin>) -> ReceiveNftMsg {
    ReceiveNftMsg {
        sender: seller.to_string(),
        token_id: token_id.to_string(),
        msg: price.map(|list_price| SellNft { list_price }),
    }
}

#[test]
fn sell_offering_happy_path() {
    let mut store = Store::new();

    let msg = InitMsg { name: String::from("test market") };
    let _res = init(&mut store, msg).unwrap();

    let msg = HandleMsg::ReceiveNft(deposit("seller", "SellableNFT", Some(coin(5, "ATOM"))));
    let _res = handle(&mut store, "anyone".to_string(), msg).unwrap();

    // Offering should be listed
    let value = query(&store, QueryMsg::GetOfferings {}).unwrap();
    assert_eq!(1, value.offerings.len());

    let buy_msg = HandleMsg::BuyNft {
        spender: "buyer".to_string(),
        amount: coin(5, "ATOM"),
        offering_id: value.offerings[0].id.clone(),
    };
    let _res = handle(&mut store, "anyone".to_string(), buy_msg).unwrap();

    // check offerings again. Should be 0
    let value2 = query(&store, QueryMsg::GetOfferings {}).unwrap();
    assert_eq!(0, value2.offerings.len());
}

#[test]
fn end_to_end_settlement() {
    let mut store = Store::new();
    init(&mut store, InitMsg { name: "test market".to_string() }).unwrap();
    assert_eq!(store.contract_info().unwrap().name, "test market");

    let res = try_receive_nft(
        &mut store,
        "anyone".to_string(),
        deposit("seller", "SellableNFT", Some(coin(5, "ATOM"))),
    )
    .unwrap();
    assert_eq!(res.messages.len(), 0);

    let listed = query_offerings(&store);
    assert_eq!(listed.offerings.len(), 1);
    let id = listed.offerings[0].id.clone();

    let res = execute_buy_nft(&mut store, "buyer".to_string(), coin(5, "ATOM"), id).unwrap();
    assert_eq!(res.messages.len(), 2);

    match &res.messages[0] {
        CosmosMsg::BankSend { from_address, to_address, amount } => {
            assert_eq!(from_address, "buyer");
            assert_eq!(to_address, "seller");
            assert_eq!(amount.len(), 1);
            assert_eq!(amount[0].amount, 5);
            assert_eq!(amount[0].denom, "ATOM");
        }
        other => panic!("expected a payment instruction, got {:?}", msg_kind(other)),
    }
    match &res.messages[1] {
        CosmosMsg::WasmExecute { contract_addr, msg, send } => {
            assert_eq!(contract_addr, "anyone");
            assert!(send.is_empty());
            // The encoded payload must be the cw721 transfer request for this
            // token directed to the buyer.
            let decoded: cw721::msg::Cw721ExecuteMsg<
                Option<cosmwasm_std::Empty>,
                Option<cosmwasm_std::Empty>,
                cosmwasm_std::Empty,
            > = cosmwasm_std::from_json(msg.as_slice()).unwrap();
            let expected = cw721::msg::Cw721ExecuteMsg::TransferNft {
                recipient: "buyer".to_string(),
                token_id: "SellableNFT".to_string(),
            };
            assert_eq!(decoded, expected);
        }
        other => panic!("expected a transfer instruction, got {:?}", msg_kind(other)),
    }

    // the settlement event names the parties and the asset
    assert_eq!(res.attributes.len(), 5);
    assert_eq!(res.attributes[0].key, "action");
    assert_eq!(res.attributes[0].value, "buy_nft");
    assert_eq!(res.attributes[1].key, "buyer");
    assert_eq!(res.attributes[1].value, "buyer");
    assert_eq!(res.attributes[2].key, "seller");
    assert_eq!(res.attributes[2].value, "seller");
    assert_eq!(res.attributes[3].key, "token_id");
    assert_eq!(res.attributes[3].value, "SellableNFT");
    assert_eq!(res.attributes[4].key, "contract_addr");
    assert_eq!(res.attributes[4].value, "anyone");

    assert_eq!(query_offerings(&store).offerings.len(), 0);
}

fn expect_err(r: Result<HandleResponse, ContractError>) -> ContractError {
    match r {
        Err(e) => e,
        Ok(resp) => panic!("expected rejection, got {} instructions", resp.messages.len()),
    }
}

fn msg_kind(m: &CosmosMsg) -> &'static str {
    match m {
        CosmosMsg::BankSend { .. } => "a bank send",
        CosmosMsg::WasmExecute { .. } => "a contract call",
    }
}

#[test]
fn listing_round_trip_reports_the_deposit() {
    let mut store = Store::new();
    let res = try_receive_nft(
        &mut store,
        "nft-system".to_string(),
        deposit("alice", "tok-7", Some(coin(42, "uatom"))),
    )
    .unwrap();

    // the event records the action, seller, price and token
    assert_eq!(res.attributes.len(), 5);
    assert_eq!(res.attributes[0].key, "action");
    assert_eq!(res.attributes[0].value, "sell_nft");
    assert_eq!(res.attributes[1].key, "original_contract");
    assert_eq!(res.attributes[1].value, "nft-system");
    assert_eq!(res.attributes[2].key, "seller");
    assert_eq!(res.attributes[2].value, "alice");
    assert_eq!(res.attributes[3].key, "list_price");
    assert_eq!(res.attributes[3].value, "42 uatom");
    assert_eq!(res.attributes[4].key, "token_id");
    assert_eq!(res.attributes[4].value, "tok-7");

    let listed = query_offerings(&store);
    assert_eq!(listed.offerings.len(), 1);
    let rec = &listed.offerings[0];
    assert_eq!(rec.id, "1");
    assert_eq!(rec.token_id, "tok-7");
    assert_eq!(rec.list_price.amount, 42);
    assert_eq!(rec.list_price.denom, "uatom");
    assert_eq!(rec.seller, "alice");
    assert_eq!(rec.contract_addr, "nft-system");
}

#[test]
fn identifiers_are_unique_and_never_reused() {
    let mut store = Store::new();
    for token in ["a", "b", "c"] {
        try_receive_nft(
            &mut store,
            "sys".to_string(),
            deposit("s", token, Some(coin(1, "x"))),
        )
        .unwrap();
    }
    let listed = query_offerings(&store);
    let ids: Vec<&str> = listed.offerings.iter().map(|o| o.id.as_str()).collect();
    assert_eq!(ids, vec!["1", "2", "3"]);
    assert_eq!(num_offerings(&store), 3);

    // settle "2", then list again: the freed identifier is not reused
    execute_buy_nft(&mut store, "b".to_string(), coin(1, "x"), "2".to_string()).unwrap();
    try_receive_nft(&mut store, "sys".to_string(), deposit("s", "d", Some(coin(1, "x"))))
        .unwrap();

    let listed = query_offerings(&store);
    let ids: Vec<&str> = listed.offerings.iter().map(|o| o.id.as_str()).collect();
    assert_eq!(ids, vec!["1", "3", "4"]);
    assert_eq!(num_offerings(&store), 4);
}

#[test]
fn two_digit_identifiers_render_in_decimal() {
    let mut store = Store::new();
    for _ in 0..11 {
        try_receive_nft(&mut store, "sys".to_string(), deposit("s", "t", Some(coin(1, "x"))))
            .unwrap();
    }
    let listed = query_offerings(&store);
    assert_eq!(listed.offerings.len(), 11);
    assert_eq!(listed.offerings[9].id, "10");
    assert_eq!(listed.offerings[10].id, "11");
}

#[test]
fn settlement_removes_exactly_one_offering() {
    let mut store = Store::new();
    for token in ["a", "b"] {
        try_receive_nft(
            &mut store,
            "sys".to_string(),
            deposit("s", token, Some(coin(3, "x"))),
        )
        .unwrap();
    }
    assert_eq!(query_offerings(&store).offerings.len(), 2);

    execute_buy_nft(&mut store, "buyer".to_string(), coin(3, "x"), "1".to_string()).unwrap();

    let listed = query_offerings(&store);
    assert_eq!(listed.offerings.len(), 1);
    assert_eq!(listed.offerings[0].id, "2");

    // the settled identifier is gone
    let err = expect_err(execute_buy_nft(&mut store, "buyer".to_string(), coin(3, "x"), "1".to_string()));
    assert_eq!(err, ContractError::NotFound);
}

#[test]
fn insufficient_funds_rejected_without_mutation() {
    let mut store = Store::new();
    try_receive_nft(&mut store, "sys".to_string(), deposit("s", "X", Some(coin(5, "ATOM"))))
        .unwrap();

    let err = expect_err(execute_buy_nft(&mut store, "buyer".to_string(), coin(4, "ATOM"), "1".to_string()));
    assert_eq!(err, ContractError::InsufficientFunds);

    // a later query still lists the offering, unchanged
    let listed = query_offerings(&store);
    assert_eq!(listed.offerings.len(), 1);
    assert_eq!(listed.offerings[0].id, "1");
    assert_eq!(listed.offerings[0].token_id, "X");
    assert_eq!(listed.offerings[0].list_price.amount, 5);
}

#[test]
fn unknown_offering_rejected() {
    let mut store = Store::new();
    let res = execute_buy_nft(&mut store, "buyer".to_string(), coin(5, "ATOM"), "7".to_string());
    match res {
        Err(e) => assert_eq!(e, ContractError::NotFound),
        Ok(r) => panic!("expected rejection, got {} instructions", r.messages.len()),
    }
    assert_eq!(query_offerings(&store).offerings.len(), 0);
}

#[test]
fn deposit_without_listing_payload_rejected() {
    let mut store = Store::new();
    let err = expect_err(try_receive_nft(&mut store, "sys".to_string(), deposit("s", "t", None)));
    assert_eq!(err, ContractError::MissingListingData);
    assert_eq!(query_offerings(&store).offerings.len(), 0);
    assert_eq!(num_offerings(&store), 0);
}

#[test]
fn counter_and_config_cells() {
    let mut store = Store::new();
    assert_eq!(num_offerings(&store), 0);
    assert_eq!(increment_offerings(&mut store), 1);
    assert_eq!(increment_offerings(&mut store), 2);
    assert_eq!(num_offerings(&store), 2);

    let count = CountResponse { count: num_offerings(&store) as i32 };
    assert_eq!(count.count, 2);

    assert!(config_read(&store).is_none());
    config(&mut store, State { count: 17, owner: "creator".to_string() });
    let st = config_read(&store).unwrap();
    assert_eq!(st.count, 17);
    assert_eq!(st.owner, "creator");
}
