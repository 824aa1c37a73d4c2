use vk_relay::codec::{decode_config, decode_handle_answer, decode_handle_msg, decode_init_msg,
    decode_query_answer, decode_query_msg, encode_config, encode_handle_answer, encode_handle_msg,
    encode_init_msg, encode_query_answer, encode_query_msg};
use vk_relay::msg::{ContractError, HandleAnswer, HandleMsg, InitMsg, QueryAnswer, QueryMsg,
    ResponseStatus};
use vk_relay::state::{Config, Store};

#[test]
fn init_msg_exact_bytes() {
    let m = InitMsg { viewing_key: "ab".to_string() };
    let bytes = encode_init_msg(&m).unwrap();
    assert_eq!(bytes, vec![1u8, 2, 0, 0, 0, b'a', b'b']);
}

#[test]
fn init_msg_round_trip() {
    let m = InitMsg { viewing_key: "accepteverythingjusthewayitis".to_string() };
    let bytes = encode_init_msg(&m).unwrap();
    match decode_init_msg(&bytes).unwrap() {
        InitMsg { viewing_key } => assert_eq!(viewing_key, "accepteverythingjusthewayitis"),
    }
}

#[test]
fn init_msg_round_trip_non_ascii() {
    let m = InitMsg { viewing_key: "clé-λ-鍵".to_string() };
    let bytes = encode_init_msg(&m).unwrap();
    match decode_init_msg(&bytes).unwrap() {
        InitMsg { viewing_key } => assert_eq!(viewing_key, "clé-λ-鍵"),
    }
}

#[test]
fn query_msg_exact_bytes_and_round_trip() {
    let bytes = encode_query_msg(&QueryMsg::Config {});
    assert_eq!(bytes, vec![2u8]);
    assert!(matches!(decode_query_msg(&bytes), Ok(QueryMsg::Config {})));
}

#[test]
fn handle_msg_round_trip() {
    let m = HandleMsg::SetViewingKeyForSnip20 {
        address: "token-address".to_string(),
        contract_hash: "token-contract-hash".to_string(),
    };
    let bytes = encode_handle_msg(&m).unwrap();
    match decode_handle_msg(&bytes).unwrap() {
        HandleMsg::SetViewingKeyForSnip20 { address, contract_hash } => {
            assert_eq!(address, "token-address");
            assert_eq!(contract_hash, "token-contract-hash");
        }
    }
}

#[test]
fn handle_msg_exact_bytes() {
    let m = HandleMsg::SetViewingKeyForSnip20 {
        address: "ad".to_string(),
        contract_hash: "h".to_string(),
    };
    let bytes = encode_handle_msg(&m).unwrap();
    assert_eq!(bytes, vec![3u8, 2, 0, 0, 0, b'a', b'd', 1, 0, 0, 0, b'h']);
}

#[test]
fn query_answer_round_trip() {
    let a = QueryAnswer::Config { viewing_key: "accepteverythingjusthewayitis".to_string() };
    let bytes = encode_query_answer(&a).unwrap();
    match decode_query_answer(&bytes).unwrap() {
        QueryAnswer::Config { viewing_key } => {
            assert_eq!(viewing_key, "accepteverythingjusthewayitis");
        }
    }
}

#[test]
fn handle_answer_exact_bytes_and_round_trip() {
    let a = HandleAnswer::SetViewingKeyForSnip20 { status: ResponseStatus::Success };
    let bytes = encode_handle_answer(&a);
    assert_eq!(bytes, vec![5u8, 1]);
    match decode_handle_answer(&bytes).unwrap() {
        HandleAnswer::SetViewingKeyForSnip20 { status } => {
            assert!(matches!(status, ResponseStatus::Success));
        }
    }
}

#[test]
fn config_round_trip_through_store() {
    let mut store = Store::new();
    let config = Config { viewing_key: "accepteverythingjusthewayitis".to_string() };
    store.save(&config).unwrap();
    let loaded = store.load().unwrap();
    assert_eq!(loaded.viewing_key, "accepteverythingjusthewayitis");
}

#[test]
fn config_exact_bytes() {
    let config = Config { viewing_key: "k".to_string() };
    let bytes = encode_config(&config).unwrap();
    assert_eq!(bytes, vec![6u8, 1, 0, 0, 0, b'k']);
    let back = decode_config(&bytes).unwrap();
    assert_eq!(back.viewing_key, "k");
}

#[test]
fn decode_empty_is_a_decode_error() {
    assert_eq!(decode_init_msg(&[]).unwrap_err(), ContractError::DecodeError);
    assert_eq!(decode_query_msg(&[]).unwrap_err(), ContractError::DecodeError);
    assert_eq!(decode_handle_msg(&[]).unwrap_err(), ContractError::DecodeError);
    assert_eq!(decode_query_answer(&[]).unwrap_err(), ContractError::DecodeError);
    assert_eq!(decode_handle_answer(&[]).unwrap_err(), ContractError::DecodeError);
    assert_eq!(decode_config(&[]).unwrap_err(), ContractError::DecodeError);
}

#[test]
fn decode_wrong_tag_is_an_unknown_variant() {
    // a valid query-message encoding handed to every other decoder
    let bytes = encode_query_msg(&QueryMsg::Config {});
    assert_eq!(decode_init_msg(&bytes).unwrap_err(), ContractError::UnknownVariant);
    assert_eq!(decode_handle_msg(&bytes).unwrap_err(), ContractError::UnknownVariant);
    assert_eq!(decode_query_answer(&bytes).unwrap_err(), ContractError::UnknownVariant);
    assert_eq!(decode_handle_answer(&bytes).unwrap_err(), ContractError::UnknownVariant);
    assert_eq!(decode_config(&bytes).unwrap_err(), ContractError::UnknownVariant);
}

#[test]
fn decode_truncated_field_is_a_decode_error() {
    let m = InitMsg { viewing_key: "abcdef".to_string() };
    let mut bytes = encode_init_msg(&m).unwrap();
    bytes.pop();
    assert_eq!(decode_init_msg(&bytes).unwrap_err(), ContractError::DecodeError);
}

#[test]
fn decode_trailing_bytes_are_a_decode_error() {
    let m = InitMsg { viewing_key: "abcdef".to_string() };
    let mut bytes = encode_init_msg(&m).unwrap();
    bytes.push(0u8);
    assert_eq!(decode_init_msg(&bytes).unwrap_err(), ContractError::DecodeError);
    let mut q = encode_query_msg(&QueryMsg::Config {});
    q.push(0u8);
    assert_eq!(decode_query_msg(&q).unwrap_err(), ContractError::DecodeError);
}

#[test]
fn decode_invalid_utf8_payload_is_a_decode_error() {
    // tag, length 1, then a lone continuation byte
    let bytes = vec![1u8, 1, 0, 0, 0, 0x80];
    assert_eq!(decode_init_msg(&bytes).unwrap_err(), ContractError::DecodeError);
}

#[test]
fn decode_unknown_status_byte_is_an_unknown_variant() {
    let bytes = vec![5u8, 7];
    assert_eq!(decode_handle_answer(&bytes).unwrap_err(), ContractError::UnknownVariant);
}
