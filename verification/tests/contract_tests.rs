use vk_relay::contract::{handle, init, query};
use vk_relay::msg::{ContractError, HandleAnswer, HandleMsg, InitMsg, QueryAnswer, QueryMsg,
    ResponseStatus};
use vk_relay::codec::{decode_handle_answer, decode_query_answer};
use vk_relay::state::Store;

fn init_helper() -> Store {
    let mut store = Store::new();
    let msg = InitMsg { viewing_key: "accepteverythingjusthewayitis".to_string() };
    let res = init(&mut store, msg);
    assert!(res.is_ok());
    store
}

#[test]
fn test_query_config() {
    let store = init_helper();
    let bytes = query(&store, QueryMsg::Config {}).unwrap();
    let res = decode_query_answer(&bytes).unwrap();
    match res {
        QueryAnswer::Config { viewing_key } => {
            assert_eq!(viewing_key, "accepteverythingjusthewayitis".to_string());
        }
    }
}

#[test]
fn test_handle_set_viewing_key_for_snip20() {
    let mut store = init_helper();

    let handle_msg = HandleMsg::SetViewingKeyForSnip20 {
        address: "token-address".to_string(),
        contract_hash: "token-contract-hash".to_string(),
    };
    let handle_result_unwrapped = handle(&mut store, handle_msg).unwrap();
    assert_eq!(handle_result_unwrapped.messages.len(), 1);
    let expected = secret_toolkit::snip20::set_viewing_key_msg(
        "accepteverythingjusthewayitis".to_string(),
        None,
        1,
        "token-contract-hash".to_string(),
        "token-address".to_string(),
    )
    .unwrap();
    match expected {
        secret_cosmwasm_std::CosmosMsg::Wasm(secret_cosmwasm_std::WasmMsg::Execute {
            contract_addr,
            code_hash,
            msg,
            ..
        }) => {
            assert_eq!(handle_result_unwrapped.messages[0].contract_addr, contract_addr);
            assert_eq!(handle_result_unwrapped.messages[0].code_hash, code_hash);
            assert_eq!(handle_result_unwrapped.messages[0].msg, msg.0);
        }
        _ => panic!("the toolkit built an unexpected message shape"),
    }
    let data = handle_result_unwrapped.data.unwrap();
    let handle_result_data = decode_handle_answer(&data).unwrap();
    match handle_result_data {
        HandleAnswer::SetViewingKeyForSnip20 { status } => {
            assert!(matches!(status, ResponseStatus::Success));
        }
    }
}

#[test]
fn query_before_init_fails() {
    let store = Store::new();
    let res = query(&store, QueryMsg::Config {});
    assert_eq!(res.unwrap_err(), ContractError::NotInitialized);
}

#[test]
fn handle_before_init_fails() {
    let mut store = Store::new();
    let msg = HandleMsg::SetViewingKeyForSnip20 {
        address: "token-address".to_string(),
        contract_hash: "token-contract-hash".to_string(),
    };
    let res = handle(&mut store, msg);
    assert_eq!(res.unwrap_err(), ContractError::NotInitialized);
}

#[test]
fn reinit_overwrites_the_key() {
    let mut store = init_helper();
    let res = init(&mut store, InitMsg { viewing_key: "another-key".to_string() });
    assert!(res.is_ok());
    let bytes = query(&store, QueryMsg::Config {}).unwrap();
    match decode_query_answer(&bytes).unwrap() {
        QueryAnswer::Config { viewing_key } => assert_eq!(viewing_key, "another-key"),
    }
}

#[test]
fn handle_keeps_the_store_unchanged() {
    let mut store = init_helper();
    let before = store.record().clone();
    let msg = HandleMsg::SetViewingKeyForSnip20 {
        address: "token-address".to_string(),
        contract_hash: "token-contract-hash".to_string(),
    };
    let _ = handle(&mut store, msg).unwrap();
    assert_eq!(store.record(), &before);
}

#[test]
fn outbound_body_is_the_toolkit_encoding_not_the_key() {
    let mut store = init_helper();
    let msg = HandleMsg::SetViewingKeyForSnip20 {
        address: "token-address".to_string(),
        contract_hash: "token-contract-hash".to_string(),
    };
    let resp = handle(&mut store, msg).unwrap();
    // the body is a serialized request carrying the key, never the raw key
    assert_ne!(resp.messages[0].msg, b"accepteverythingjusthewayitis".to_vec());
    let body = String::from_utf8(resp.messages[0].msg.clone()).unwrap();
    assert!(body.contains("set_viewing_key"));
    assert!(body.contains("accepteverythingjusthewayitis"));
}

#[test]
fn corrupt_record_fails_to_load() {
    // a record that starts like a configuration but is truncated
    let store = Store::from_record(Some(vec![6u8, 5, 0, 0, 0]));
    let res = query(&store, QueryMsg::Config {});
    assert_eq!(res.unwrap_err(), ContractError::DecodeError);
}

#[test]
fn record_with_foreign_tag_is_unknown() {
    let store = Store::from_record(Some(vec![99u8]));
    let res = query(&store, QueryMsg::Config {});
    assert_eq!(res.unwrap_err(), ContractError::UnknownVariant);
}
