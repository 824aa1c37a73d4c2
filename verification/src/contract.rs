//! The entry points of the deployed instance: `init`, `handle`, `query`.
//!
//! Each call runs to completion against the configuration store the host
//! hands in, and either commits in full or aborts with a typed error and no
//! state change. Outbound messages are returned as values for the host to
//! deliver, never sent directly.

use vstd::prelude::*;

use crate::codec::{encodable_init_msg, encodable_str, encode_handle_answer, encode_query_answer,
    lemma_round_trip_config, lemma_round_trip_query_answer, spec_decode_query_answer,
    spec_encode_config, spec_encode_handle_answer, spec_encode_query_answer};
use crate::msg::{ContractError, HandleAnswer, HandleAnswerV, HandleMsg, HandleMsgV, InitMsg,
    QueryAnswer, QueryAnswerV, QueryMsg, QueryMsgV, ResponseStatus};
use crate::snip20::{set_vk_request_of, set_viewing_key_call, OutboundMessage, OutboundMessageV};
use crate::state::{spec_load, Config, ConfigV, Store};

verus! {

/// The empty acknowledgment of a successful initialization.
pub struct InitResponse {}

/// The outcome of a successful handle call: the outbound messages for the
/// host to deliver, and the response payload for the caller.
#[derive(Debug)]
pub struct HandleResponse {
    pub messages: Vec<OutboundMessage>,
    pub data: Option<Vec<u8>>,
}

/// View of [`HandleResponse`].
pub struct HandleResponseV {
    pub messages: Seq<OutboundMessageV>,
    pub data: Option<Seq<u8>>,
}

impl View for HandleResponse {
    type V = HandleResponseV;

    open spec fn view(&self) -> HandleResponseV {
        HandleResponseV {
            messages: self.messages@.map_values(|m: OutboundMessage| m@),
            data: match self.data {
                Some(ref b) => Some(b@),
                None => None,
            },
        }
    }
}

/// Stores the viewing key of the initialization message as the instance's
/// configuration, overwriting any prior record. Fails, leaving the store as
/// it was, exactly when the key cannot be encoded for storage.
pub fn init(store: &mut Store, msg: InitMsg) -> (r: Result<InitResponse, ContractError>)
    ensures
        encodable_init_msg(msg@) ==> r == Ok::<InitResponse, ContractError>(InitResponse {})
            && final(store)@ == Some(
            spec_encode_config(ConfigV { viewing_key: msg@.viewing_key }),
        ) && spec_load(final(store)@) == Ok::<ConfigV, ContractError>(
            ConfigV { viewing_key: msg@.viewing_key },
        ),
        !encodable_init_msg(msg@) ==> r == Err::<InitResponse, ContractError>(
            ContractError::SerializationError,
        ) && final(store)@ == old(store)@,
{
    let config = Config { viewing_key: msg.viewing_key };
    match store.save(&config) {
        Ok(()) => {
            proof {
                lemma_round_trip_config(config@);
            }
            Ok(InitResponse {})
        },
        Err(e) => Err(e),
    }
}

/// What the query entry point returns for a given stored record and request:
/// the encoded configuration answer, or the error of the failing step.
pub open spec fn spec_query(s: Option<Seq<u8>>, m: QueryMsgV) -> Result<Seq<u8>, ContractError> {
    match m {
        QueryMsgV::Config {} => match spec_load(s) {
            Err(e) => Err(e),
            Ok(c) => if encodable_str(c.viewing_key) {
                Ok(spec_encode_query_answer(QueryAnswerV::Config { viewing_key: c.viewing_key }))
            } else {
                Err(ContractError::SerializationError)
            },
        },
    }
}

/// Answers the configuration query with the encoded stored configuration.
/// Read-only: no state change, no outbound messages.
pub fn query(store: &Store, msg: QueryMsg) -> (r: Result<Vec<u8>, ContractError>)
    ensures
        r matches Ok(b) ==> spec_query(store@, msg@) == Ok::<Seq<u8>, ContractError>(b@),
        r matches Err(e) ==> spec_query(store@, msg@) == Err::<Seq<u8>, ContractError>(e),
{
    match msg {
        QueryMsg::Config {} => {
            let answer = match query_config(store) {
                Ok(a) => a,
                Err(e) => {
                    return Err(e);
                },
            };
            match encode_query_answer(&answer) {
                Ok(b) => Ok(b),
                Err(e) => Err(e),
            }
        },
    }
}

/// Loads the stored configuration and shapes it as the query answer.
pub fn query_config(store: &Store) -> (r: Result<QueryAnswer, ContractError>)
    ensures
        r matches Ok(a) ==> spec_load(store@) matches Ok(c) && a@ == (QueryAnswerV::Config {
            viewing_key: c.viewing_key,
        }),
        r matches Err(e) ==> spec_load(store@) == Err::<ConfigV, ContractError>(e),
{
    let state = match store.load() {
        Ok(c) => c,
        Err(e) => {
            return Err(e);
        },
    };
    Ok(QueryAnswer::Config { viewing_key: state.viewing_key })
}

/// The target address of a handle request.
pub open spec fn handle_msg_address(m: HandleMsgV) -> Seq<char> {
    match m {
        HandleMsgV::SetViewingKeyForSnip20 { address, .. } => address,
    }
}

/// The target contract hash of a handle request.
pub open spec fn handle_msg_contract_hash(m: HandleMsgV) -> Seq<char> {
    match m {
        HandleMsgV::SetViewingKeyForSnip20 { contract_hash, .. } => contract_hash,
    }
}

/// The one outbound message of a successful handle call: the set-viewing-key
/// request carrying `key`, addressed to the caller-supplied destination. The
/// caller supplies only the destination; the key is drawn from the stored
/// configuration.
pub open spec fn spec_set_vk_outbound(
    key: Seq<char>,
    address: Seq<char>,
    contract_hash: Seq<char>,
) -> OutboundMessageV {
    OutboundMessageV {
        contract_addr: address,
        code_hash: contract_hash,
        msg: set_vk_request_of(key),
    }
}

/// Dispatches a handle request. The schema has exactly one operation:
/// forward the stored viewing key to the external token contract named by
/// the request. The call succeeds exactly when the stored record loads, and
/// then the response carries exactly one outbound message, addressed as
/// requested, whose body carries the stored key.
pub fn handle(store: &mut Store, msg: HandleMsg) -> (r: Result<HandleResponse, ContractError>)
    ensures
        final(store)@ == old(store)@,
        spec_load(old(store)@) matches Err(e0) ==> r == Err::<HandleResponse, ContractError>(e0),
        spec_load(old(store)@) matches Ok(c) ==> r matches Ok(resp) && resp@.messages == seq![
            spec_set_vk_outbound(
                c.viewing_key,
                handle_msg_address(msg@),
                handle_msg_contract_hash(msg@),
            ),
        ] && resp@.data == Some(
            spec_encode_handle_answer(
                HandleAnswerV::SetViewingKeyForSnip20 { status: ResponseStatus::Success },
            ),
        ),
{
    match msg {
        HandleMsg::SetViewingKeyForSnip20 { address, contract_hash } => set_viewing_key_for_snip20(
            store,
            address,
            contract_hash,
        ),
    }
}

/// Loads the stored key, has the toolkit build the set-viewing-key call to
/// the given destination, and returns it with a success payload. Fails
/// exactly when the load does.
fn set_viewing_key_for_snip20(store: &mut Store, address: String, contract_hash: String) -> (r:
    Result<HandleResponse, ContractError>)
    ensures
        final(store)@ == old(store)@,
        spec_load(old(store)@) matches Err(e0) ==> r == Err::<HandleResponse, ContractError>(e0),
        spec_load(old(store)@) matches Ok(c) ==> r matches Ok(resp) && resp@.messages == seq![
            spec_set_vk_outbound(c.viewing_key, address@, contract_hash@),
        ] && resp@.data == Some(
            spec_encode_handle_answer(
                HandleAnswerV::SetViewingKeyForSnip20 { status: ResponseStatus::Success },
            ),
        ),
{
    let state = match store.load() {
        Ok(c) => c,
        Err(e) => {
            return Err(e);
        },
    };
    let outbound = set_viewing_key_call(&state.viewing_key, &contract_hash, &address).unwrap();
    let answer = HandleAnswer::SetViewingKeyForSnip20 { status: ResponseStatus::Success };
    let data = encode_handle_answer(&answer);
    let mut messages: Vec<OutboundMessage> = Vec::new();
    messages.push(outbound);
    let resp = HandleResponse { messages, data: Some(data) };
    proof {
        assert(resp@.messages =~= seq![
            spec_set_vk_outbound(state@.viewing_key, address@, contract_hash@),
        ]);
    }
    Ok(resp)
}

/// Initialization followed by the configuration query hands the key back:
/// the record that `init` writes for key `k` is answered by the encoded
/// configuration answer, and that answer decodes to exactly `k`.
pub proof fn lemma_init_then_query(k: Seq<char>)
    requires
        encodable_str(k),
    ensures
        spec_query(Some(spec_encode_config(ConfigV { viewing_key: k })), QueryMsgV::Config {})
            == Ok::<Seq<u8>, ContractError>(
            spec_encode_query_answer(QueryAnswerV::Config { viewing_key: k }),
        ),
        spec_decode_query_answer(spec_encode_query_answer(QueryAnswerV::Config { viewing_key: k }))
            == Ok::<QueryAnswerV, ContractError>(QueryAnswerV::Config { viewing_key: k }),
{
    lemma_round_trip_config(ConfigV { viewing_key: k });
    lemma_round_trip_query_answer(QueryAnswerV::Config { viewing_key: k });
}

/// A query against a store that was never initialized fails with
/// `NotInitialized`, whatever the request.
pub proof fn lemma_query_before_init(m: QueryMsgV)
    ensures
        spec_query(None, m) == Err::<Seq<u8>, ContractError>(ContractError::NotInitialized),
{
}

/// The body of the outbound message depends on the stored configuration
/// alone: two handle requests naming different destinations still carry the
/// same key material.
pub proof fn lemma_outbound_key_from_config(
    c: ConfigV,
    a1: Seq<char>,
    h1: Seq<char>,
    a2: Seq<char>,
    h2: Seq<char>,
)
    ensures
        spec_set_vk_outbound(c.viewing_key, a1, h1).msg == spec_set_vk_outbound(
            c.viewing_key,
            a2,
            h2,
        ).msg,
{
}

} // verus!

