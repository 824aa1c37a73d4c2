//! The wire encoding of every schema value.
//!
//! Each message is encoded as one tag byte followed by its fields in
//! declaration order. A string field is encoded as a four-byte little-endian
//! length followed by the UTF-8 bytes of the string; a status field is one
//! byte. The encoding is deterministic: a logical value has exactly one
//! encoding, so byte equality coincides with value equality.
//!
//! Decoding accepts exactly the encodings: a wrong tag is an
//! [`ContractError::UnknownVariant`], and truncated input, trailing bytes, an
//! overlong length or a malformed UTF-8 payload are a
//! [`ContractError::DecodeError`].

use vstd::prelude::*;
use vstd::bytes::{lemma_auto_spec_u32_to_from_le_bytes, spec_u32_from_le_bytes,
    spec_u32_to_le_bytes, u32_from_le_bytes, u32_to_le_bytes};
use vstd::slice::{slice_index_get, slice_subrange, slice_to_vec};
use vstd::utf8::{decode_utf8, encode_utf8, encode_utf8_decode_utf8, encode_utf8_valid_utf8,
    valid_utf8};

use crate::msg::{ContractError, HandleAnswer, HandleAnswerV, HandleMsg, HandleMsgV, InitMsg,
    InitMsgV, QueryAnswer, QueryAnswerV, QueryMsg, QueryMsgV, ResponseStatus};
use crate::state::{Config, ConfigV};

verus! {

/// Tag byte of an encoded [`InitMsg`].
pub const TAG_INIT: u8 = 1;

/// Tag byte of an encoded [`QueryMsg::Config`] request.
pub const TAG_QUERY_CONFIG: u8 = 2;

/// Tag byte of an encoded [`HandleMsg::SetViewingKeyForSnip20`] request.
pub const TAG_HANDLE_SET_VIEWING_KEY: u8 = 3;

/// Tag byte of an encoded [`QueryAnswer::Config`] response.
pub const TAG_QUERY_ANSWER_CONFIG: u8 = 4;

/// Tag byte of an encoded [`HandleAnswer::SetViewingKeyForSnip20`] response.
pub const TAG_HANDLE_ANSWER_SET_VIEWING_KEY: u8 = 5;

/// Tag byte of the persisted configuration record.
pub const TAG_CONFIG: u8 = 6;

/// Field byte standing for [`ResponseStatus::Success`].
pub const STATUS_BYTE_SUCCESS: u8 = 1;

/// A string is representable on the wire when its UTF-8 form fits the
/// four-byte length field.
pub open spec fn encodable_str(s: Seq<char>) -> bool {
    encode_utf8(s).len() <= 0xffff_ffff
}

/// Wire form of one string field: four-byte little-endian byte length, then
/// the UTF-8 bytes.
pub open spec fn spec_str_field(s: Seq<char>) -> Seq<u8>
    recommends
        encodable_str(s),
{
    spec_u32_to_le_bytes(encode_utf8(s).len() as u32) + encode_utf8(s)
}

/// Reads one string field from the front of `b`: the decoded string and the
/// remaining bytes, or `None` when `b` is truncated or the payload is not
/// UTF-8.
pub open spec fn spec_parse_str(b: Seq<u8>) -> Option<(Seq<char>, Seq<u8>)> {
    if b.len() < 4 {
        None
    } else {
        let n = spec_u32_from_le_bytes(b.take(4)) as int;
        if b.len() < 4 + n {
            None
        } else {
            let payload = b.subrange(4, 4 + n);
            if valid_utf8(payload) {
                Some((decode_utf8(payload), b.skip(4 + n)))
            } else {
                None
            }
        }
    }
}

/// A string field followed by anything parses back to that string and the
/// rest.
pub proof fn lemma_parse_str_field(s: Seq<char>, rest: Seq<u8>)
    requires
        encodable_str(s),
    ensures
        spec_parse_str(spec_str_field(s) + rest) == Some((s, rest)),
{
    lemma_auto_spec_u32_to_from_le_bytes();
    encode_utf8_valid_utf8(s);
    encode_utf8_decode_utf8(s);
    let e = encode_utf8(s);
    let all = spec_str_field(s) + rest;
    assert(all.take(4) =~= spec_u32_to_le_bytes(e.len() as u32));
    assert(spec_u32_from_le_bytes(all.take(4)) as int == e.len());
    assert(all.subrange(4, 4 + e.len() as int) =~= e);
    assert(all.skip(4 + e.len() as int) =~= rest);
}

/// Relies on `String::from_utf8`: it succeeds exactly on valid UTF-8 input,
/// and the string it returns is the one those bytes encode.
#[verifier::external_body]
fn bytes_to_string(b: &[u8]) -> (r: Option<String>)
    ensures
        r is Some <==> valid_utf8(b@),
        r matches Some(s) ==> encode_utf8(s@) == b@ && s@ == decode_utf8(b@),
{
    match String::from_utf8(b.to_vec()) {
        Ok(s) => Some(s),
        Err(_) => None,
    }
}

/// Builds the wire form of one string field, or reports that the string does
/// not fit the length field.
fn str_field_bytes(s: &String) -> (r: Result<Vec<u8>, ContractError>)
    ensures
        r matches Ok(v) ==> encodable_str(s@) && v@ == spec_str_field(s@),
        r matches Err(e) ==> e == ContractError::SerializationError && !encodable_str(s@),
{
    let bytes: &[u8] = s.as_str().as_bytes();
    if bytes.len() > 0xffff_ffff {
        return Err(ContractError::SerializationError);
    }
    let mut out = u32_to_le_bytes(bytes.len() as u32);
    let mut payload = slice_to_vec(bytes);
    out.append(&mut payload);
    proof {
        assert(out@ =~= spec_str_field(s@));
    }
    Ok(out)
}

/// Reads one string field of `b` starting at `start`; on success the new
/// position is where the field ended.
fn read_str_field(b: &[u8], start: usize) -> (r: Result<(String, usize), ContractError>)
    requires
        start <= b@.len(),
    ensures
        r matches Ok(p) ==> start <= p.1 <= b@.len() && spec_parse_str(b@.skip(start as int))
            == Some((p.0@, b@.skip(p.1 as int))),
        r matches Err(e) ==> e == ContractError::DecodeError && spec_parse_str(
            b@.skip(start as int),
        ) is None,
{
    let ghost tail = b@.skip(start as int);
    let len = b.len();
    if len - start < 4 {
        return Err(ContractError::DecodeError);
    }
    let len_slice = slice_subrange(b, start, start + 4);
    proof {
        assert(len_slice@ =~= tail.take(4));
    }
    let n32 = u32_from_le_bytes(len_slice);
    let n = n32 as usize;
    if len - start - 4 < n {
        return Err(ContractError::DecodeError);
    }
    let payload = slice_subrange(b, start + 4, start + 4 + n);
    proof {
        assert(payload@ =~= tail.subrange(4, 4 + n32 as int));
    }
    match bytes_to_string(payload) {
        Some(s) => {
            proof {
                assert(tail.skip(4 + n32 as int) =~= b@.skip((start + 4 + n) as int));
            }
            Ok((s, start + 4 + n))
        },
        None => Err(ContractError::DecodeError),
    }
}

/// The values an [`InitMsg`] may take on the wire.
pub open spec fn encodable_init_msg(m: InitMsgV) -> bool {
    encodable_str(m.viewing_key)
}

/// Wire form of an [`InitMsg`].
pub open spec fn spec_encode_init_msg(m: InitMsgV) -> Seq<u8>
    recommends
        encodable_init_msg(m),
{
    seq![TAG_INIT] + spec_str_field(m.viewing_key)
}

/// The [`InitMsg`] a byte sequence stands for, or the error that tells why it
/// stands for none.
pub open spec fn spec_decode_init_msg(b: Seq<u8>) -> Result<InitMsgV, ContractError> {
    if b.len() < 1 {
        Err(ContractError::DecodeError)
    } else if b[0] != TAG_INIT {
        Err(ContractError::UnknownVariant)
    } else {
        match spec_parse_str(b.skip(1)) {
            None => Err(ContractError::DecodeError),
            Some((viewing_key, rest)) => if rest.len() == 0 {
                Ok(InitMsgV { viewing_key })
            } else {
                Err(ContractError::DecodeError)
            },
        }
    }
}

/// Encodes an [`InitMsg`]; fails exactly when the key does not fit the length
/// field.
pub fn encode_init_msg(m: &InitMsg) -> (r: Result<Vec<u8>, ContractError>)
    ensures
        r matches Ok(v) ==> encodable_init_msg(m@) && v@ == spec_encode_init_msg(m@),
        r matches Err(e) ==> e == ContractError::SerializationError && !encodable_init_msg(m@),
{
    let mut field = match str_field_bytes(&m.viewing_key) {
        Ok(v) => v,
        Err(e) => {
            return Err(e);
        },
    };
    let mut out: Vec<u8> = Vec::new();
    out.push(TAG_INIT);
    out.append(&mut field);
    proof {
        assert(out@ =~= spec_encode_init_msg(m@));
    }
    Ok(out)
}

/// Decodes an [`InitMsg`], returning exactly what
/// [`spec_decode_init_msg`] assigns to the bytes.
pub fn decode_init_msg(b: &[u8]) -> (r: Result<InitMsg, ContractError>)
    ensures
        r matches Ok(m) ==> spec_decode_init_msg(b@) == Ok::<InitMsgV, ContractError>(m@),
        r matches Err(e) ==> spec_decode_init_msg(b@) == Err::<InitMsgV, ContractError>(e),
{
    if b.len() < 1 {
        return Err(ContractError::DecodeError);
    }
    if *slice_index_get(b, 0) != TAG_INIT {
        return Err(ContractError::UnknownVariant);
    }
    let (viewing_key, pos) = match read_str_field(b, 1) {
        Ok(p) => p,
        Err(e) => {
            return Err(e);
        },
    };
    if pos != b.len() {
        return Err(ContractError::DecodeError);
    }
    Ok(InitMsg { viewing_key })
}

/// Every representable [`InitMsg`] decodes back from its encoding.
pub proof fn lemma_round_trip_init_msg(m: InitMsgV)
    requires
        encodable_init_msg(m),
    ensures
        spec_decode_init_msg(spec_encode_init_msg(m)) == Ok::<InitMsgV, ContractError>(m),
{
    let all = spec_encode_init_msg(m);
    assert(all.skip(1) =~= spec_str_field(m.viewing_key) + Seq::<u8>::empty());
    lemma_parse_str_field(m.viewing_key, Seq::empty());
}

/// Wire form of a [`QueryMsg`]: the tag alone, the request has no fields.
pub open spec fn spec_encode_query_msg(m: QueryMsgV) -> Seq<u8> {
    seq![TAG_QUERY_CONFIG]
}

/// The [`QueryMsg`] a byte sequence stands for.
pub open spec fn spec_decode_query_msg(b: Seq<u8>) -> Result<QueryMsgV, ContractError> {
    if b.len() < 1 {
        Err(ContractError::DecodeError)
    } else if b[0] != TAG_QUERY_CONFIG {
        Err(ContractError::UnknownVariant)
    } else if b.len() != 1 {
        Err(ContractError::DecodeError)
    } else {
        Ok(QueryMsgV::Config {})
    }
}

/// Encodes a [`QueryMsg`]; a query has no fields, so this cannot fail.
pub fn encode_query_msg(m: &QueryMsg) -> (r: Vec<u8>)
    ensures
        r@ == spec_encode_query_msg(m@),
{
    let mut out: Vec<u8> = Vec::new();
    out.push(TAG_QUERY_CONFIG);
    proof {
        assert(out@ =~= spec_encode_query_msg(m@));
    }
    out
}

/// Decodes a [`QueryMsg`], returning exactly what [`spec_decode_query_msg`]
/// assigns to the bytes.
pub fn decode_query_msg(b: &[u8]) -> (r: Result<QueryMsg, ContractError>)
    ensures
        r matches Ok(m) ==> spec_decode_query_msg(b@) == Ok::<QueryMsgV, ContractError>(m@),
        r matches Err(e) ==> spec_decode_query_msg(b@) == Err::<QueryMsgV, ContractError>(e),
{
    if b.len() < 1 {
        return Err(ContractError::DecodeError);
    }
    if *slice_index_get(b, 0) != TAG_QUERY_CONFIG {
        return Err(ContractError::UnknownVariant);
    }
    if b.len() != 1 {
        return Err(ContractError::DecodeError);
    }
    Ok(QueryMsg::Config {})
}

/// Every [`QueryMsg`] decodes back from its encoding.
pub proof fn lemma_round_trip_query_msg(m: QueryMsgV)
    ensures
        spec_decode_query_msg(spec_encode_query_msg(m)) == Ok::<QueryMsgV, ContractError>(m),
{
}

/// The values a [`HandleMsg`] may take on the wire.
pub open spec fn encodable_handle_msg(m: HandleMsgV) -> bool {
    match m {
        HandleMsgV::SetViewingKeyForSnip20 { address, contract_hash } => encodable_str(address)
            && encodable_str(contract_hash),
    }
}

/// Wire form of a [`HandleMsg`]: the tag, the target address, then the target
/// contract hash.
pub open spec fn spec_encode_handle_msg(m: HandleMsgV) -> Seq<u8>
    recommends
        encodable_handle_msg(m),
{
    match m {
        HandleMsgV::SetViewingKeyForSnip20 { address, contract_hash } => seq![
            TAG_HANDLE_SET_VIEWING_KEY,
        ] + spec_str_field(address) + spec_str_field(contract_hash),
    }
}

/// The [`HandleMsg`] a byte sequence stands for.
pub open spec fn spec_decode_handle_msg(b: Seq<u8>) -> Result<HandleMsgV, ContractError> {
    if b.len() < 1 {
        Err(ContractError::DecodeError)
    } else if b[0] != TAG_HANDLE_SET_VIEWING_KEY {
        Err(ContractError::UnknownVariant)
    } else {
        match spec_parse_str(b.skip(1)) {
            None => Err(ContractError::DecodeError),
            Some((address, rest)) => match spec_parse_str(rest) {
                None => Err(ContractError::DecodeError),
                Some((contract_hash, rest2)) => if rest2.len() == 0 {
                    Ok(HandleMsgV::SetViewingKeyForSnip20 { address, contract_hash })
                } else {
                    Err(ContractError::DecodeError)
                },
            },
        }
    }
}

/// Encodes a [`HandleMsg`]; fails exactly when a field does not fit the
/// length field.
pub fn encode_handle_msg(m: &HandleMsg) -> (r: Result<Vec<u8>, ContractError>)
    ensures
        r matches Ok(v) ==> encodable_handle_msg(m@) && v@ == spec_encode_handle_msg(m@),
        r matches Err(e) ==> e == ContractError::SerializationError && !encodable_handle_msg(m@),
{
    match m {
        HandleMsg::SetViewingKeyForSnip20 { address, contract_hash } => {
            let mut f1 = match str_field_bytes(address) {
                Ok(v) => v,
                Err(e) => {
                    return Err(e);
                },
            };
            let mut f2 = match str_field_bytes(contract_hash) {
                Ok(v) => v,
                Err(e) => {
                    return Err(e);
                },
            };
            let mut out: Vec<u8> = Vec::new();
            out.push(TAG_HANDLE_SET_VIEWING_KEY);
            out.append(&mut f1);
            out.append(&mut f2);
            proof {
                assert(out@ =~= spec_encode_handle_msg(m@));
            }
            Ok(out)
        },
    }
}

/// Decodes a [`HandleMsg`], returning exactly what [`spec_decode_handle_msg`]
/// assigns to the bytes.
pub fn decode_handle_msg(b: &[u8]) -> (r: Result<HandleMsg, ContractError>)
    ensures
        r matches Ok(m) ==> spec_decode_handle_msg(b@) == Ok::<HandleMsgV, ContractError>(m@),
        r matches Err(e) ==> spec_decode_handle_msg(b@) == Err::<HandleMsgV, ContractError>(e),
{
    if b.len() < 1 {
        return Err(ContractError::DecodeError);
    }
    if *slice_index_get(b, 0) != TAG_HANDLE_SET_VIEWING_KEY {
        return Err(ContractError::UnknownVariant);
    }
    let (address, pos) = match read_str_field(b, 1) {
        Ok(p) => p,
        Err(e) => {
            return Err(e);
        },
    };
    let (contract_hash, pos2) = match read_str_field(b, pos) {
        Ok(p) => p,
        Err(e) => {
            return Err(e);
        },
    };
    if pos2 != b.len() {
        return Err(ContractError::DecodeError);
    }
    Ok(HandleMsg::SetViewingKeyForSnip20 { address, contract_hash })
}

/// Every representable [`HandleMsg`] decodes back from its encoding.
pub proof fn lemma_round_trip_handle_msg(m: HandleMsgV)
    requires
        encodable_handle_msg(m),
    ensures
        spec_decode_handle_msg(spec_encode_handle_msg(m)) == Ok::<HandleMsgV, ContractError>(m),
{
    match m {
        HandleMsgV::SetViewingKeyForSnip20 { address, contract_hash } => {
            let all = spec_encode_handle_msg(m);
            let f2 = spec_str_field(contract_hash);
            assert(all.skip(1) =~= spec_str_field(address) + f2);
            lemma_parse_str_field(address, f2);
            assert(f2 =~= f2 + Seq::<u8>::empty());
            lemma_parse_str_field(contract_hash, Seq::empty());
        },
    }
}

/// The values a [`QueryAnswer`] may take on the wire.
pub open spec fn encodable_query_answer(a: QueryAnswerV) -> bool {
    match a {
        QueryAnswerV::Config { viewing_key } => encodable_str(viewing_key),
    }
}

/// Wire form of a [`QueryAnswer`].
pub open spec fn spec_encode_query_answer(a: QueryAnswerV) -> Seq<u8>
    recommends
        encodable_query_answer(a),
{
    match a {
        QueryAnswerV::Config { viewing_key } => seq![TAG_QUERY_ANSWER_CONFIG] + spec_str_field(
            viewing_key,
        ),
    }
}

/// The [`QueryAnswer`] a byte sequence stands for.
pub open spec fn spec_decode_query_answer(b: Seq<u8>) -> Result<QueryAnswerV, ContractError> {
    if b.len() < 1 {
        Err(ContractError::DecodeError)
    } else if b[0] != TAG_QUERY_ANSWER_CONFIG {
        Err(ContractError::UnknownVariant)
    } else {
        match spec_parse_str(b.skip(1)) {
            None => Err(ContractError::DecodeError),
            Some((viewing_key, rest)) => if rest.len() == 0 {
                Ok(QueryAnswerV::Config { viewing_key })
            } else {
                Err(ContractError::DecodeError)
            },
        }
    }
}

/// Encodes a [`QueryAnswer`]; fails exactly when the key does not fit the
/// length field.
pub fn encode_query_answer(a: &QueryAnswer) -> (r: Result<Vec<u8>, ContractError>)
    ensures
        r matches Ok(v) ==> encodable_query_answer(a@) && v@ == spec_encode_query_answer(a@),
        r matches Err(e) ==> e == ContractError::SerializationError && !encodable_query_answer(a@),
{
    match a {
        QueryAnswer::Config { viewing_key } => {
            let mut field = match str_field_bytes(viewing_key) {
                Ok(v) => v,
                Err(e) => {
                    return Err(e);
                },
            };
            let mut out: Vec<u8> = Vec::new();
            out.push(TAG_QUERY_ANSWER_CONFIG);
            out.append(&mut field);
            proof {
                assert(out@ =~= spec_encode_query_answer(a@));
            }
            Ok(out)
        },
    }
}

/// Decodes a [`QueryAnswer`], returning exactly what
/// [`spec_decode_query_answer`] assigns to the bytes.
pub fn decode_query_answer(b: &[u8]) -> (r: Result<QueryAnswer, ContractError>)
    ensures
        r matches Ok(a) ==> spec_decode_query_answer(b@) == Ok::<QueryAnswerV, ContractError>(a@),
        r matches Err(e) ==> spec_decode_query_answer(b@) == Err::<QueryAnswerV, ContractError>(e),
{
    if b.len() < 1 {
        return Err(ContractError::DecodeError);
    }
    if *slice_index_get(b, 0) != TAG_QUERY_ANSWER_CONFIG {
        return Err(ContractError::UnknownVariant);
    }
    let (viewing_key, pos) = match read_str_field(b, 1) {
        Ok(p) => p,
        Err(e) => {
            return Err(e);
        },
    };
    if pos != b.len() {
        return Err(ContractError::DecodeError);
    }
    Ok(QueryAnswer::Config { viewing_key })
}

/// Every representable [`QueryAnswer`] decodes back from its encoding.
pub proof fn lemma_round_trip_query_answer(a: QueryAnswerV)
    requires
        encodable_query_answer(a),
    ensures
        spec_decode_query_answer(spec_encode_query_answer(a)) == Ok::<
            QueryAnswerV,
            ContractError,
        >(a),
{
    match a {
        QueryAnswerV::Config { viewing_key } => {
            let all = spec_encode_query_answer(a);
            assert(all.skip(1) =~= spec_str_field(viewing_key) + Seq::<u8>::empty());
            lemma_parse_str_field(viewing_key, Seq::empty());
        },
    }
}

/// Wire form of a [`HandleAnswer`]: the tag, then one status byte.
pub open spec fn spec_encode_handle_answer(a: HandleAnswerV) -> Seq<u8> {
    match a {
        HandleAnswerV::SetViewingKeyForSnip20 { status } => match status {
            ResponseStatus::Success => seq![TAG_HANDLE_ANSWER_SET_VIEWING_KEY, STATUS_BYTE_SUCCESS],
        },
    }
}

/// The [`HandleAnswer`] a byte sequence stands for.
pub open spec fn spec_decode_handle_answer(b: Seq<u8>) -> Result<HandleAnswerV, ContractError> {
    if b.len() < 1 {
        Err(ContractError::DecodeError)
    } else if b[0] != TAG_HANDLE_ANSWER_SET_VIEWING_KEY {
        Err(ContractError::UnknownVariant)
    } else if b.len() != 2 {
        Err(ContractError::DecodeError)
    } else if b[1] != STATUS_BYTE_SUCCESS {
        Err(ContractError::UnknownVariant)
    } else {
        Ok(HandleAnswerV::SetViewingKeyForSnip20 { status: ResponseStatus::Success })
    }
}

/// Encodes a [`HandleAnswer`]; both fields are single bytes, so this cannot
/// fail.
pub fn encode_handle_answer(a: &HandleAnswer) -> (r: Vec<u8>)
    ensures
        r@ == spec_encode_handle_answer(a@),
{
    match a {
        HandleAnswer::SetViewingKeyForSnip20 { status } => {
            let mut out: Vec<u8> = Vec::new();
            out.push(TAG_HANDLE_ANSWER_SET_VIEWING_KEY);
            match status {
                ResponseStatus::Success => out.push(STATUS_BYTE_SUCCESS),
            }
            proof {
                assert(out@ =~= spec_encode_handle_answer(a@));
            }
            out
        },
    }
}

/// Decodes a [`HandleAnswer`], returning exactly what
/// [`spec_decode_handle_answer`] assigns to the bytes.
pub fn decode_handle_answer(b: &[u8]) -> (r: Result<HandleAnswer, ContractError>)
    ensures
        r matches Ok(a) ==> spec_decode_handle_answer(b@) == Ok::<HandleAnswerV, ContractError>(
            a@,
        ),
        r matches Err(e) ==> spec_decode_handle_answer(b@) == Err::<HandleAnswerV, ContractError>(
            e,
        ),
{
    if b.len() < 1 {
        return Err(ContractError::DecodeError);
    }
    if *slice_index_get(b, 0) != TAG_HANDLE_ANSWER_SET_VIEWING_KEY {
        return Err(ContractError::UnknownVariant);
    }
    if b.len() != 2 {
        return Err(ContractError::DecodeError);
    }
    if *slice_index_get(b, 1) != STATUS_BYTE_SUCCESS {
        return Err(ContractError::UnknownVariant);
    }
    Ok(HandleAnswer::SetViewingKeyForSnip20 { status: ResponseStatus::Success })
}

/// Every [`HandleAnswer`] decodes back from its encoding.
pub proof fn lemma_round_trip_handle_answer(a: HandleAnswerV)
    ensures
        spec_decode_handle_answer(spec_encode_handle_answer(a)) == Ok::<
            HandleAnswerV,
            ContractError,
        >(a),
{
}

/// The values a [`Config`] record may take on the wire.
pub open spec fn encodable_config(c: ConfigV) -> bool {
    encodable_str(c.viewing_key)
}

/// Wire form of the persisted [`Config`] record.
pub open spec fn spec_encode_config(c: ConfigV) -> Seq<u8>
    recommends
        encodable_config(c),
{
    seq![TAG_CONFIG] + spec_str_field(c.viewing_key)
}

/// The [`Config`] a stored record stands for.
pub open spec fn spec_decode_config(b: Seq<u8>) -> Result<ConfigV, ContractError> {
    if b.len() < 1 {
        Err(ContractError::DecodeError)
    } else if b[0] != TAG_CONFIG {
        Err(ContractError::UnknownVariant)
    } else {
        match spec_parse_str(b.skip(1)) {
            None => Err(ContractError::DecodeError),
            Some((viewing_key, rest)) => if rest.len() == 0 {
                Ok(ConfigV { viewing_key })
            } else {
                Err(ContractError::DecodeError)
            },
        }
    }
}

/// Encodes a [`Config`] record; fails exactly when the key does not fit the
/// length field.
pub fn encode_config(c: &Config) -> (r: Result<Vec<u8>, ContractError>)
    ensures
        r matches Ok(v) ==> encodable_config(c@) && v@ == spec_encode_config(c@),
        r matches Err(e) ==> e == ContractError::SerializationError && !encodable_config(c@),
{
    let mut field = match str_field_bytes(&c.viewing_key) {
        Ok(v) => v,
        Err(e) => {
            return Err(e);
        },
    };
    let mut out: Vec<u8> = Vec::new();
    out.push(TAG_CONFIG);
    out.append(&mut field);
    proof {
        assert(out@ =~= spec_encode_config(c@));
    }
    Ok(out)
}

/// Decodes a stored [`Config`] record, returning exactly what
/// [`spec_decode_config`] assigns to the bytes.
pub fn decode_config(b: &[u8]) -> (r: Result<Config, ContractError>)
    ensures
        r matches Ok(c) ==> spec_decode_config(b@) == Ok::<ConfigV, ContractError>(c@),
        r matches Err(e) ==> spec_decode_config(b@) == Err::<ConfigV, ContractError>(e),
{
    if b.len() < 1 {
        return Err(ContractError::DecodeError);
    }
    if *slice_index_get(b, 0) != TAG_CONFIG {
        return Err(ContractError::UnknownVariant);
    }
    let (viewing_key, pos) = match read_str_field(b, 1) {
        Ok(p) => p,
        Err(e) => {
            return Err(e);
        },
    };
    if pos != b.len() {
        return Err(ContractError::DecodeError);
    }
    Ok(Config { viewing_key })
}

/// Every representable [`Config`] decodes back from its stored record.
pub proof fn lemma_round_trip_config(c: ConfigV)
    requires
        encodable_config(c),
    ensures
        spec_decode_config(spec_encode_config(c)) == Ok::<ConfigV, ContractError>(c),
{
    let all = spec_encode_config(c);
    assert(all.skip(1) =~= spec_str_field(c.viewing_key) + Seq::<u8>::empty());
    lemma_parse_str_field(c.viewing_key, Seq::empty());
}

} // verus!
