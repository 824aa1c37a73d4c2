//! The outbound set-viewing-key call to the external token contract.
//!
//! The call body is built by the token-contract toolkit; this module wraps
//! that one call and names its result, so that the entry-point contracts can
//! state that the key placed in the outbound message is the stored one.

use vstd::prelude::*;

verus! {

/// The body of the set-viewing-key request that the token-contract toolkit
/// builds for a given key. With no explicit padding and a block size of one,
/// the body is a function of the key alone.
pub uninterp spec fn set_vk_request_of(key: Seq<char>) -> Seq<u8>;

/// One cross-contract call, addressed and ready for the host to deliver:
/// the target contract's address, its code hash, and the encoded request
/// body.
#[derive(Debug)]
pub struct OutboundMessage {
    pub contract_addr: String,
    pub code_hash: String,
    pub msg: Vec<u8>,
}

/// View of [`OutboundMessage`].
pub struct OutboundMessageV {
    pub contract_addr: Seq<char>,
    pub code_hash: Seq<char>,
    pub msg: Seq<u8>,
}

impl View for OutboundMessage {
    type V = OutboundMessageV;

    open spec fn view(&self) -> OutboundMessageV {
        OutboundMessageV {
            contract_addr: self.contract_addr@,
            code_hash: self.code_hash@,
            msg: self.msg@,
        }
    }
}

/// Relies on `secret_toolkit::snip20::set_viewing_key_msg`: it serializes a
/// set-viewing-key request carrying the given key, pads it to a block size
/// of one (a no-op), and wraps it in a wasm execute call that carries the
/// given contract address and code hash verbatim. The call cannot fail: the
/// serializer writes the request, a plain enum of string and option fields,
/// into a growable buffer with no error path, and the result is always the
/// wasm execute variant.
#[verifier::external_body]
pub(crate) fn set_viewing_key_call(key: &String, code_hash: &String, contract_addr: &String) -> (r:
    Option<OutboundMessage>)
    ensures
        r is Some,
        r matches Some(m) ==> m.contract_addr@ == contract_addr@ && m.code_hash@ == code_hash@
            && m.msg@ == set_vk_request_of(key@),
{
    let built = secret_toolkit::snip20::set_viewing_key_msg(
        key.clone(), None, 1, code_hash.clone(), contract_addr.clone(),
    );
    match built {
        Ok(secret_cosmwasm_std::CosmosMsg::Wasm(secret_cosmwasm_std::WasmMsg::Execute {
            contract_addr,
            code_hash,
            msg,
            ..
        })) => Some(OutboundMessage { contract_addr, code_hash, msg: msg.0 }),
        _ => None,
    }
}

} // verus!
