use my_collection_manager::codec::encode_num_tokens;
use my_collection_manager::msg::NameServiceExecuteMsgResponse;
use my_collection_manager::contract::execute;
use my_collection_manager::contract::instantiate;
use my_collection_manager::contract::migrate;
use my_collection_manager::contract::query;
use my_collection_manager::contract::reply;
use my_collection_manager::contract::sudo;
use my_collection_manager::msg::Coin;
use my_collection_manager::msg::CollectionExecuteMsg;
use my_collection_manager::msg::ExecuteMsg;
use my_collection_manager::msg::GetPaymentParamsResponse;
use my_collection_manager::msg::InstantiateMsg;
use my_collection_manager::msg::MessageInfo;
use my_collection_manager::msg::MigrateMsg;
use my_collection_manager::msg::PaymentParams;
use my_collection_manager::msg::QueryMsg;
use my_collection_manager::msg::Reply;
use my_collection_manager::msg::SubMsgResult;
use my_collection_manager::msg::SudoMsg;
use my_collection_manager::response::Attribute;
use my_collection_manager::response::BankMsg;
use my_collection_manager::response::Event;
use my_collection_manager::response::Response;
use my_collection_manager::response::SubMsg;
use my_collection_manager::state::ConfigStore;

fn coin(denom: &str, amount: u128) -> Coin {
    Coin { denom: denom.to_string(), amount }
}

fn manager_event(attributes: Vec<Attribute>) -> Event {
    Event { ty: "my-collection-manager".to_string(), attributes }
}

fn attribute(key: &str, value: &str) -> Attribute {
    Attribute { key: key.to_string(), value: value.to_string() }
}

fn mint_alice() -> CollectionExecuteMsg {
    CollectionExecuteMsg::Mint {
        token_id: "alice".to_string(),
        owner: "owner".to_string(),
        token_uri: None,
    }
}

fn pass_through_sub_msg(collection: &str, message: CollectionExecuteMsg) -> SubMsg {
    SubMsg {
        id: 1,
        contract_addr: collection.to_string(),
        message,
        funds: vec![],
        reply_on_success: true,
    }
}

#[test]
fn test_pass_through() {
    // Arrange
    let mut store = ConfigStore::new();
    let instantiate_msg = InstantiateMsg {
        payment_params: PaymentParams { beneficiary: "deployer".to_string(), mint_price: None },
    };
    let _ = instantiate(&mut store, instantiate_msg).expect("Failed to instantiate manager");
    let fund_sent = coin("gold", 335);
    let mocked_msg_info = MessageInfo {
        sender: "executer".to_string(),
        funds: vec![Coin { denom: fund_sent.denom.clone(), amount: fund_sent.amount }],
    };
    let execute_msg = ExecuteMsg::PassThrough {
        collection: "collection".to_string(),
        message: mint_alice(),
    };

    // Act
    let contract_result = execute(&store, mocked_msg_info, execute_msg, 3);

    // Assert
    assert!(contract_result.is_ok(), "Failed to pass message through");
    let received_response = contract_result.unwrap();
    let expected_response = Response {
        messages: vec![BankMsg { to_address: "executer".to_string(), amount: vec![fund_sent] }],
        sub_msgs: vec![pass_through_sub_msg("collection", mint_alice())],
        events: vec![manager_event(vec![attribute("token-count-before", "3")])],
    };
    assert_eq!(received_response, expected_response);
}

#[test]
fn test_paid_mint_pass_through() {
    // Arrange
    let mut store = ConfigStore::new();
    let minting_price = coin("silver", 55);
    let instantiate_msg = InstantiateMsg {
        payment_params: PaymentParams {
            beneficiary: "beneficiary".to_string(),
            mint_price: Some(coin("silver", 55)),
        },
    };
    let _ = instantiate(&mut store, instantiate_msg).expect("Failed to instantiate manager");
    let extra_fund_sent = coin("gold", 335);
    let mocked_msg_info = MessageInfo {
        sender: "executer".to_string(),
        funds: vec![coin("gold", 335), coin("silver", 30), coin("silver", 30)],
    };
    let execute_msg = ExecuteMsg::PassThrough {
        collection: "collection".to_string(),
        message: mint_alice(),
    };

    // Act
    let contract_result = execute(&store, mocked_msg_info, execute_msg, 3);

    // Assert
    assert!(contract_result.is_ok(), "Failed to pass message through");
    let received_response = contract_result.unwrap();
    let expected_denom_change = coin("silver", 5);
    let expected_response = Response {
        messages: vec![
            BankMsg { to_address: "beneficiary".to_string(), amount: vec![minting_price] },
            BankMsg {
                to_address: "executer".to_string(),
                amount: vec![extra_fund_sent, expected_denom_change],
            },
        ],
        sub_msgs: vec![pass_through_sub_msg("collection", mint_alice())],
        events: vec![manager_event(vec![attribute("token-count-before", "3")])],
    };
    assert_eq!(received_response, expected_response);
}

#[test]
fn test_reply_pass_through() {
    // Arrange
    let num_tokens = NameServiceExecuteMsgResponse { num_tokens: 4 }.to_json_vec();
    let mut prefixed_num_tokens = vec![10, 16];
    prefixed_num_tokens.extend_from_slice(num_tokens.as_slice());
    let reply_msg = Reply { id: 1, result: SubMsgResult::Success(Some(prefixed_num_tokens)) };

    // Act
    let contract_result = reply(reply_msg);

    // Assert
    assert!(contract_result.is_ok(), "Failed to pass reply through");
    let received_response = contract_result.unwrap();
    let expected_response = Response {
        messages: vec![],
        sub_msgs: vec![],
        events: vec![manager_event(vec![attribute("token-count-after", "4")])],
    };
    assert_eq!(received_response, expected_response);
}

#[test]
fn contract_test_sudo_update_payment_params() {
    // Arrange
    let mut store = ConfigStore::new();
    let new_payment_params = PaymentParams {
        beneficiary: "beneficiary".to_string(),
        mint_price: Some(coin("silver", 1)),
    };
    let sudo_msg = SudoMsg::UpdatePaymentParams(PaymentParams {
        beneficiary: "beneficiary".to_string(),
        mint_price: Some(coin("silver", 1)),
    });

    // Act
    let contract_result = sudo(&mut store, sudo_msg);

    // Assert
    assert!(contract_result.is_ok(), "Failed to sudo");
    let received_response = contract_result.unwrap();
    let expected_response = Response {
        messages: vec![],
        sub_msgs: vec![],
        events: vec![manager_event(vec![
            attribute("update-payment-params-beneficiary", "beneficiary"),
            attribute("update-payment-params-mint-price-denom", "silver"),
            attribute("update-payment-params-mint-price-amount", "1"),
        ])],
    };
    assert_eq!(received_response, expected_response);
    let payment_params = store.load().expect("Failed to load payment params");
    assert_eq!(payment_params, new_payment_params);
}

#[test]
fn test_mint_through() {
    // Arrange
    let mut store = ConfigStore::new();
    let _ = instantiate(
        &mut store,
        InstantiateMsg {
            payment_params: PaymentParams {
                beneficiary: "beneficiary".to_string(),
                mint_price: None,
            },
        },
    )
    .expect("Failed to instantiate manager");
    let register_msg = ExecuteMsg::PassThrough {
        collection: "collection".to_string(),
        message: mint_alice(),
    };
    let sender_info = MessageInfo { sender: "sender".to_string(), funds: vec![] };

    // Act
    let result = execute(&store, sender_info, register_msg, 0);

    // Assert
    assert!(result.is_ok(), "Failed to pass through the message");
    let result = result.unwrap();
    assert_eq!(result.messages, vec![]);
    assert_eq!(result.sub_msgs, vec![pass_through_sub_msg("collection", mint_alice())]);
    assert_eq!(result.events, vec![manager_event(vec![attribute("token-count-before", "0")])]);
    let completion = Reply {
        id: 1,
        result: SubMsgResult::Success(Some({
            let mut framed = vec![10, 16];
            framed.extend_from_slice(encode_num_tokens(1).as_slice());
            framed
        })),
    };
    let after = reply(completion).expect("Failed to pass reply through");
    assert_eq!(after.events, vec![manager_event(vec![attribute("token-count-after", "1")])]);
}

#[test]
fn test_paid_mint_through() {
    // Arrange
    let mut store = ConfigStore::new();
    let minting_price = coin("silver", 55);
    let extra_fund_sent = coin("gold", 335);
    let _ = instantiate(
        &mut store,
        InstantiateMsg {
            payment_params: PaymentParams {
                beneficiary: "beneficiary".to_string(),
                mint_price: Some(coin("silver", 55)),
            },
        },
    )
    .expect("Failed to instantiate manager");
    let register_msg = ExecuteMsg::PassThrough {
        collection: "collection".to_string(),
        message: mint_alice(),
    };
    let half_silver = coin("silver", 30);
    let sender_info = MessageInfo {
        sender: "sender".to_string(),
        funds: vec![
            coin("gold", 335),
            Coin { denom: half_silver.denom.clone(), amount: half_silver.amount },
            half_silver,
        ],
    };

    // Act
    let result = execute(&store, sender_info, register_msg, 0);

    // Assert
    assert!(result.is_ok(), "Failed to pass through the message");
    let result = result.unwrap();
    let expected_silver_change = coin("silver", 5);
    assert_eq!(
        result.messages,
        vec![
            BankMsg { to_address: "beneficiary".to_string(), amount: vec![minting_price] },
            BankMsg {
                to_address: "sender".to_string(),
                amount: vec![extra_fund_sent, expected_silver_change],
            },
        ],
    );
    assert_eq!(result.sub_msgs, vec![pass_through_sub_msg("collection", mint_alice())]);
}

#[test]
fn test_mint_num_tokens() {
    // Arrange
    let mut store = ConfigStore::new();
    let _ = instantiate(
        &mut store,
        InstantiateMsg {
            payment_params: PaymentParams {
                beneficiary: "beneficiary".to_string(),
                mint_price: None,
            },
        },
    )
    .expect("Failed to instantiate manager");
    let first_msg = ExecuteMsg::PassThrough {
        collection: "collection".to_string(),
        message: mint_alice(),
    };
    let first_info = MessageInfo { sender: "sender".to_string(), funds: vec![] };
    let _ = execute(&store, first_info, first_msg, 0)
        .expect("Failed to pass through the first mint message");
    let register_msg = ExecuteMsg::PassThrough {
        collection: "collection".to_string(),
        message: CollectionExecuteMsg::Mint {
            token_id: "bob".to_string(),
            owner: "owner".to_string(),
            token_uri: None,
        },
    };
    let second_info = MessageInfo { sender: "sender".to_string(), funds: vec![] };

    // Act
    let result = execute(&store, second_info, register_msg, 1);

    // Assert
    assert!(result.is_ok(), "Failed to pass through the second mint message");
    let result = result.unwrap();
    assert_eq!(result.events, vec![manager_event(vec![attribute("token-count-before", "1")])]);
    let completion = Reply {
        id: 1,
        result: SubMsgResult::Success(Some({
            let mut framed = vec![10, 16];
            framed.extend_from_slice(encode_num_tokens(2).as_slice());
            framed
        })),
    };
    let after = reply(completion).expect("Failed to pass reply through");
    assert_eq!(after.events, vec![manager_event(vec![attribute("token-count-after", "2")])]);
}

#[test]
fn test_sudo_update_payment_params() {
    // Arrange
    let mut store = ConfigStore::new();
    let _ = instantiate(
        &mut store,
        InstantiateMsg {
            payment_params: PaymentParams {
                beneficiary: "beneficiary".to_string(),
                mint_price: None,
            },
        },
    )
    .expect("Failed to instantiate manager");
    let new_payment_params = PaymentParams {
        beneficiary: "beneficiary".to_string(),
        mint_price: Some(coin("silver", 23)),
    };
    let update_sudo_msg = SudoMsg::UpdatePaymentParams(PaymentParams {
        beneficiary: "beneficiary".to_string(),
        mint_price: Some(coin("silver", 23)),
    });

    // Act
    let result = sudo(&mut store, update_sudo_msg);

    // Assert
    assert!(result.is_ok(), "Failed to pass through the message");
    let result = result.unwrap();
    assert_eq!(
        result.events,
        vec![manager_event(vec![
            attribute("update-payment-params-beneficiary", "beneficiary"),
            attribute("update-payment-params-mint-price-denom", "silver"),
            attribute("update-payment-params-mint-price-amount", "23"),
        ])],
    );
    let result = query(&store, QueryMsg::GetPaymentParams);
    assert!(result.is_ok(), "Failed to query payment params");
    assert_eq!(result.unwrap(), GetPaymentParamsResponse { payment_params: new_payment_params });
}

#[test]
fn test_migrate_payment_params() {
    // Arrange: the prior deployment never stored a configuration.
    let mut store = ConfigStore::new();
    let new_payment_params = PaymentParams {
        beneficiary: "beneficiary".to_string(),
        mint_price: Some(coin("silver", 23)),
    };
    let migrate_msg = MigrateMsg {
        payment_params: PaymentParams {
            beneficiary: "beneficiary".to_string(),
            mint_price: Some(coin("silver", 23)),
        },
    };

    // Act
    let result = migrate(&mut store, migrate_msg, "0.1.0".to_string());

    // Assert
    assert!(result.is_ok(), "Failed to migrate the contract");
    let result = result.unwrap();
    assert_eq!(
        result.events,
        vec![manager_event(vec![
            attribute("update-contract-version", "0.1.0"),
            attribute("update-payment-params-beneficiary", "beneficiary"),
            attribute("update-payment-params-mint-price-denom", "silver"),
            attribute("update-payment-params-mint-price-amount", "23"),
        ])],
    );
    let result = query(&store, QueryMsg::GetPaymentParams);
    assert!(result.is_ok(), "Failed to query payment params");
    assert_eq!(result.unwrap(), GetPaymentParamsResponse { payment_params: new_payment_params });
}
