//! The request/response schema of the contract and its error taxonomy.
//!
//! Every schema type carries `String` fields at the executable level and is
//! mirrored by a view type over `Seq<char>`, which the wire-format
//! specifications in [`crate::codec`] speak about.

use vstd::prelude::*;

verus! {

/// The one initialization message: it carries the secret viewing key that the
/// contract persists.
#[derive(Debug)]
pub struct InitMsg {
    pub viewing_key: String,
}

/// View of [`InitMsg`].
pub struct InitMsgV {
    pub viewing_key: Seq<char>,
}

impl View for InitMsg {
    type V = InitMsgV;

    open spec fn view(&self) -> InitMsgV {
        InitMsgV { viewing_key: self.viewing_key@ }
    }
}

/// The state-transition requests. The schema defines exactly one operation:
/// forward the stored viewing key to an external token contract.
#[derive(Debug)]
pub enum HandleMsg {
    SetViewingKeyForSnip20 { address: String, contract_hash: String },
}

/// View of [`HandleMsg`].
pub enum HandleMsgV {
    SetViewingKeyForSnip20 { address: Seq<char>, contract_hash: Seq<char> },
}

impl View for HandleMsg {
    type V = HandleMsgV;

    open spec fn view(&self) -> HandleMsgV {
        match self {
            HandleMsg::SetViewingKeyForSnip20 { address, contract_hash } => {
                HandleMsgV::SetViewingKeyForSnip20 {
                    address: address@,
                    contract_hash: contract_hash@,
                }
            },
        }
    }
}

/// The read-only requests. The schema defines exactly one query: return the
/// stored configuration.
#[derive(Debug)]
pub enum QueryMsg {
    Config {},
}

/// View of [`QueryMsg`].
pub enum QueryMsgV {
    Config {},
}

impl View for QueryMsg {
    type V = QueryMsgV;

    open spec fn view(&self) -> QueryMsgV {
        match self {
            QueryMsg::Config {} => QueryMsgV::Config {},
        }
    }
}

/// Outcome marker carried by a handle response payload.
#[derive(Clone, Copy, Debug, PartialEq, Eq, Structural)]
pub enum ResponseStatus {
    Success,
}

/// The response payload of a successful handle call.
#[derive(Debug)]
pub enum HandleAnswer {
    SetViewingKeyForSnip20 { status: ResponseStatus },
}

/// View of [`HandleAnswer`].
pub enum HandleAnswerV {
    SetViewingKeyForSnip20 { status: ResponseStatus },
}

impl View for HandleAnswer {
    type V = HandleAnswerV;

    open spec fn view(&self) -> HandleAnswerV {
        match self {
            HandleAnswer::SetViewingKeyForSnip20 { status } => {
                HandleAnswerV::SetViewingKeyForSnip20 { status: *status }
            },
        }
    }
}

/// The response payload of the configuration query.
#[derive(Debug)]
pub enum QueryAnswer {
    Config { viewing_key: String },
}

/// View of [`QueryAnswer`].
pub enum QueryAnswerV {
    Config { viewing_key: Seq<char> },
}

impl View for QueryAnswer {
    type V = QueryAnswerV;

    open spec fn view(&self) -> QueryAnswerV {
        match self {
            QueryAnswer::Config { viewing_key } => {
                QueryAnswerV::Config { viewing_key: viewing_key@ }
            },
        }
    }
}

/// The error taxonomy. Every entry-point call either succeeds in full or
/// aborts with one of these; no partial state change is ever committed.
#[derive(Clone, Copy, Debug, PartialEq, Eq, Structural)]
pub enum ContractError {
    /// The configuration record was read before any successful `init`.
    NotInitialized,
    /// A value could not be encoded for storage or transport.
    SerializationError,
    /// Bytes were truncated, carried trailing garbage, or held a malformed
    /// field.
    DecodeError,
    /// The leading tag byte matched no recognized schema variant.
    UnknownVariant,
    /// A request named an operation outside the schema. The schema defines a
    /// single handle operation and a single query, so dispatch is closed over
    /// the message enums and no decoded request reaches this error; it is
    /// part of the taxonomy for callers that grow the schema.
    UnsupportedOperation,
}

} // verus!
