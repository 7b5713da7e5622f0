//! Per-chain response validators.
//!
//! Each blockchain flavour answers its health probe with a different JSON
//! shape; a validator extracts the numeric tip (block height, ledger index,
//! slot or sequence number) from the response bytes, or reports why it
//! could not.  A validator is a total function of the bytes alone.

use vstd::prelude::*;
use vstd::string::*;
use crate::json::{JsonValue, json_of, obj_field, get_field, parse_json};
use crate::numeric::{parse_u64_of, parse_u64_str};
use crate::strutil::string_eq_str;

verus! {

/// Why a response yielded no tip: the bytes are not a JSON document of the
/// required shape (`InvalidJson`), or the document is well-shaped but its
/// values fail a check or carry no usable tip (`InvalidTip`).
#[derive(Debug, Clone, Copy, PartialEq, Eq, Structural)]
pub enum ValidatorError {
    InvalidJson,
    InvalidTip,
}

/// The chain flavours with a registered validator.
#[derive(Debug, Clone, Copy, PartialEq, Eq, Structural)]
pub enum ValidatorKind {
    Ethereum,
    Ripple,
    Cosmos,
    Rosetta,
    Solana,
    Bitcoin,
    Tron,
    TronGrpc,
    Stellar,
    Algorand,
    Ton,
    Polkadot,
}

/// The chars of the string under field `name`, when that field holds a
/// string.
pub open spec fn field_str(v: JsonValue, name: Seq<char>) -> Option<Seq<char>> {
    match obj_field(v, name) {
        Some(JsonValue::Str(s)) => Some(s@),
        _ => None,
    }
}

/// The integer under field `name`, when that field holds an unsigned
/// integer in `u64` range.
pub open spec fn field_u64(v: JsonValue, name: Seq<char>) -> Option<u64> {
    match obj_field(v, name) {
        Some(JsonValue::Uint(u)) => Some(u),
        _ => None,
    }
}

/// The boolean under field `name`, when that field holds a boolean.
pub open spec fn field_bool(v: JsonValue, name: Seq<char>) -> Option<bool> {
    match obj_field(v, name) {
        Some(JsonValue::Bool(b)) => Some(b),
        _ => None,
    }
}

/// Field `name` holding a string.
fn get_str_field<'a>(v: &'a JsonValue, name: &str) -> (r: Option<&'a String>)
    ensures
        match r {
            Some(s) => field_str(*v, name@) == Some(s@),
            None => field_str(*v, name@) is None,
        },
{
    match get_field(v, name) {
        Some(f) => match f {
            JsonValue::Str(s) => Some(s),
            _ => None,
        },
        None => None,
    }
}

/// Field `name` holding an unsigned integer.
fn get_u64_field(v: &JsonValue, name: &str) -> (r: Option<u64>)
    ensures
        r == field_u64(*v, name@),
{
    match get_field(v, name) {
        Some(f) => match f {
            JsonValue::Uint(u) => Some(*u),
            _ => None,
        },
        None => None,
    }
}

/// Field `name` holding a boolean.
fn get_bool_field(v: &JsonValue, name: &str) -> (r: Option<bool>)
    ensures
        r == field_bool(*v, name@),
{
    match get_field(v, name) {
        Some(f) => match f {
            JsonValue::Bool(b) => Some(*b),
            _ => None,
        },
        None => None,
    }
}

/// Hex parse of a string's chars after the two-character `0x` prefix.
pub open spec fn hex_tip_of(s: Seq<char>) -> Option<u64> {
    if s.len() < 2 {
        None
    } else {
        parse_u64_of(s.skip(2), 16)
    }
}

/// Hex parse of `s` after its first two characters.
fn parse_hex_tip(s: &String) -> (r: Option<u64>)
    ensures
        r == hex_tip_of(s@),
{
    let n = s.as_str().unicode_len();
    if n < 2 {
        return None;
    }
    let sub = s.as_str().substring_char(2, n);
    proof {
        assert(sub@ =~= s@.skip(2));
    }
    parse_u64_str(sub, 16)
}

/// Tip of an Ethereum-style `eth_blockNumber` response: an object carrying
/// `jsonrpc` (string), `id` (integer) and `result` (string); `jsonrpc` must
/// be `"2.0"` and the tip is the hex parse of `result` after its `0x`
/// prefix.
pub open spec fn eth_tip_of(doc: Option<JsonValue>) -> Result<u64, ValidatorError> {
    match doc {
        None => Err(ValidatorError::InvalidJson),
        Some(v) => {
            if field_str(v, "jsonrpc"@) is None || field_u64(v, "id"@) is None || field_str(
                v,
                "result"@,
            ) is None {
                Err(ValidatorError::InvalidJson)
            } else if field_str(v, "jsonrpc"@) != Some("2.0"@) {
                Err(ValidatorError::InvalidTip)
            } else {
                match hex_tip_of(field_str(v, "result"@).unwrap()) {
                    Some(t) => Ok(t),
                    None => Err(ValidatorError::InvalidTip),
                }
            }
        },
    }
}

pub fn eth_validator(body: &[u8]) -> (r: Result<u64, ValidatorError>)
    ensures
        r == eth_tip_of(json_of(body@)),
{
    let doc = parse_json(body);
    match doc {
        None => Err(ValidatorError::InvalidJson),
        Some(v) => {
            let jsonrpc = get_str_field(&v, "jsonrpc");
            let id = get_u64_field(&v, "id");
            let result = get_str_field(&v, "result");
            match (jsonrpc, id, result) {
                (Some(jr), Some(_), Some(res)) => {
                    if !string_eq_str(jr, "2.0") {
                        Err(ValidatorError::InvalidTip)
                    } else {
                        match parse_hex_tip(res) {
                            Some(t) => Ok(t),
                            None => Err(ValidatorError::InvalidTip),
                        }
                    }
                },
                _ => Err(ValidatorError::InvalidJson),
            }
        },
    }
}

/// Tip of a Ripple `ledger_closed` response: `result` is an object carrying
/// `ledger_hash` (string), `ledger_index` (integer) and `status` (string);
/// `status` must be `"success"` and the tip is `ledger_index`.
pub open spec fn ripple_tip_of(doc: Option<JsonValue>) -> Result<u64, ValidatorError> {
    match doc {
        None => Err(ValidatorError::InvalidJson),
        Some(v) => match obj_field(v, "result"@) {
            None => Err(ValidatorError::InvalidJson),
            Some(res) => {
                if field_str(res, "ledger_hash"@) is None || field_u64(res, "ledger_index"@)
                    is None || field_str(res, "status"@) is None {
                    Err(ValidatorError::InvalidJson)
                } else if field_str(res, "status"@) != Some("success"@) {
                    Err(ValidatorError::InvalidTip)
                } else {
                    Ok(field_u64(res, "ledger_index"@).unwrap())
                }
            },
        },
    }
}

pub fn ripple_validator(body: &[u8]) -> (r: Result<u64, ValidatorError>)
    ensures
        r == ripple_tip_of(json_of(body@)),
{
    let doc = parse_json(body);
    match doc {
        None => Err(ValidatorError::InvalidJson),
        Some(v) => match get_field(&v, "result") {
            None => Err(ValidatorError::InvalidJson),
            Some(res) => {
                let hash = get_str_field(res, "ledger_hash");
                let index = get_u64_field(res, "ledger_index");
                let status = get_str_field(res, "status");
                match (hash, index, status) {
                    (Some(_), Some(ix), Some(st)) => {
                        if !string_eq_str(st, "success") {
                            Err(ValidatorError::InvalidTip)
                        } else {
                            Ok(ix)
                        }
                    },
                    _ => Err(ValidatorError::InvalidJson),
                }
            },
        },
    }
}

/// Tip of a Cosmos block response: the decimal parse of
/// `block.header.height` (a string).
pub open spec fn cosmos_tip_of(doc: Option<JsonValue>) -> Result<u64, ValidatorError> {
    match doc {
        None => Err(ValidatorError::InvalidJson),
        Some(v) => match obj_field(v, "block"@) {
            None => Err(ValidatorError::InvalidJson),
            Some(b) => match obj_field(b, "header"@) {
                None => Err(ValidatorError::InvalidJson),
                Some(h) => match field_str(h, "height"@) {
                    None => Err(ValidatorError::InvalidJson),
                    Some(hs) => match parse_u64_of(hs, 10) {
                        Some(t) => Ok(t),
                        None => Err(ValidatorError::InvalidTip),
                    },
                },
            },
        },
    }
}

pub fn cosmos_validator(body: &[u8]) -> (r: Result<u64, ValidatorError>)
    ensures
        r == cosmos_tip_of(json_of(body@)),
{
    let doc = parse_json(body);
    match doc {
        None => Err(ValidatorError::InvalidJson),
        Some(v) => match get_field(&v, "block") {
            None => Err(ValidatorError::InvalidJson),
            Some(b) => match get_field(b, "header") {
                None => Err(ValidatorError::InvalidJson),
                Some(h) => match get_str_field(h, "height") {
                    None => Err(ValidatorError::InvalidJson),
                    Some(hs) => match parse_u64_str(hs.as_str(), 10) {
                        Some(t) => Ok(t),
                        None => Err(ValidatorError::InvalidTip),
                    },
                },
            },
        },
    }
}

/// Tip of a Rosetta network status response: `current_block_identifier` is
/// an object carrying `index` (integer) and `hash` (string); the tip is
/// `index`.
pub open spec fn rosetta_tip_of(doc: Option<JsonValue>) -> Result<u64, ValidatorError> {
    match doc {
        None => Err(ValidatorError::InvalidJson),
        Some(v) => match obj_field(v, "current_block_identifier"@) {
            None => Err(ValidatorError::InvalidJson),
            Some(cbi) => {
                if field_u64(cbi, "index"@) is None || field_str(cbi, "hash"@) is None {
                    Err(ValidatorError::InvalidJson)
                } else {
                    Ok(field_u64(cbi, "index"@).unwrap())
                }
            },
        },
    }
}

pub fn rosetta_validator(body: &[u8]) -> (r: Result<u64, ValidatorError>)
    ensures
        r == rosetta_tip_of(json_of(body@)),
{
    let doc = parse_json(body);
    match doc {
        None => Err(ValidatorError::InvalidJson),
        Some(v) => match get_field(&v, "current_block_identifier") {
            None => Err(ValidatorError::InvalidJson),
            Some(cbi) => {
                let index = get_u64_field(cbi, "index");
                let hash = get_str_field(cbi, "hash");
                match (index, hash) {
                    (Some(ix), Some(_)) => Ok(ix),
                    _ => Err(ValidatorError::InvalidJson),
                }
            },
        },
    }
}

/// Tip of a Solana `getEpochInfo` response: an object carrying `jsonrpc`
/// (string), `id` (integer) and `result.absoluteSlot` (integer); `jsonrpc`
/// must be `"2.0"` and the tip is the absolute slot.
pub open spec fn solana_tip_of(doc: Option<JsonValue>) -> Result<u64, ValidatorError> {
    match doc {
        None => Err(ValidatorError::InvalidJson),
        Some(v) => match obj_field(v, "result"@) {
            None => Err(ValidatorError::InvalidJson),
            Some(res) => {
                if field_str(v, "jsonrpc"@) is None || field_u64(v, "id"@) is None || field_u64(
                    res,
                    "absoluteSlot"@,
                ) is None {
                    Err(ValidatorError::InvalidJson)
                } else if field_str(v, "jsonrpc"@) != Some("2.0"@) {
                    Err(ValidatorError::InvalidTip)
                } else {
                    Ok(field_u64(res, "absoluteSlot"@).unwrap())
                }
            },
        },
    }
}

pub fn solana_validator(body: &[u8]) -> (r: Result<u64, ValidatorError>)
    ensures
        r == solana_tip_of(json_of(body@)),
{
    let doc = parse_json(body);
    match doc {
        None => Err(ValidatorError::InvalidJson),
        Some(v) => match get_field(&v, "result") {
            None => Err(ValidatorError::InvalidJson),
            Some(res) => {
                let jsonrpc = get_str_field(&v, "jsonrpc");
                let id = get_u64_field(&v, "id");
                let slot = get_u64_field(res, "absoluteSlot");
                match (jsonrpc, id, slot) {
                    (Some(jr), Some(_), Some(t)) => {
                        if !string_eq_str(jr, "2.0") {
                            Err(ValidatorError::InvalidTip)
                        } else {
                            Ok(t)
                        }
                    },
                    _ => Err(ValidatorError::InvalidJson),
                }
            },
        },
    }
}

/// Tip of a Bitcoin `getblockcount` response: an object carrying `id`
/// (string) and `result` (integer); `id` must be `"1.0"` and the tip is
/// `result`.
pub open spec fn bitcoin_tip_of(doc: Option<JsonValue>) -> Result<u64, ValidatorError> {
    match doc {
        None => Err(ValidatorError::InvalidJson),
        Some(v) => {
            if field_str(v, "id"@) is None || field_u64(v, "result"@) is None {
                Err(ValidatorError::InvalidJson)
            } else if field_str(v, "id"@) != Some("1.0"@) {
                Err(ValidatorError::InvalidTip)
            } else {
                Ok(field_u64(v, "result"@).unwrap())
            }
        },
    }
}

pub fn bitcoin_validator(body: &[u8]) -> (r: Result<u64, ValidatorError>)
    ensures
        r == bitcoin_tip_of(json_of(body@)),
{
    let doc = parse_json(body);
    match doc {
        None => Err(ValidatorError::InvalidJson),
        Some(v) => {
            let id = get_str_field(&v, "id");
            let result = get_u64_field(&v, "result");
            match (id, result) {
                (Some(ids), Some(t)) => {
                    if !string_eq_str(ids, "1.0") {
                        Err(ValidatorError::InvalidTip)
                    } else {
                        Ok(t)
                    }
                },
                _ => Err(ValidatorError::InvalidJson),
            }
        },
    }
}

/// Tip of a Tron block response: `block_header.raw_data.number` (integer).
pub open spec fn tron_tip_of(doc: Option<JsonValue>) -> Result<u64, ValidatorError> {
    match doc {
        None => Err(ValidatorError::InvalidJson),
        Some(v) => match obj_field(v, "block_header"@) {
            None => Err(ValidatorError::InvalidJson),
            Some(bh) => match obj_field(bh, "raw_data"@) {
                None => Err(ValidatorError::InvalidJson),
                Some(rd) => match field_u64(rd, "number"@) {
                    None => Err(ValidatorError::InvalidJson),
                    Some(t) => Ok(t),
                },
            },
        },
    }
}

pub fn tron_validator(body: &[u8]) -> (r: Result<u64, ValidatorError>)
    ensures
        r == tron_tip_of(json_of(body@)),
{
    let doc = parse_json(body);
    match doc {
        None => Err(ValidatorError::InvalidJson),
        Some(v) => match get_field(&v, "block_header") {
            None => Err(ValidatorError::InvalidJson),
            Some(bh) => match get_field(bh, "raw_data") {
                None => Err(ValidatorError::InvalidJson),
                Some(rd) => match get_u64_field(rd, "number") {
                    None => Err(ValidatorError::InvalidJson),
                    Some(t) => Ok(t),
                },
            },
        },
    }
}

/// The Tron gRPC probe acts as a liveness check only: every response yields
/// the constant tip 1000.
pub fn tron_grpc_validator(body: &[u8]) -> (r: Result<u64, ValidatorError>)
    ensures
        r == Ok::<u64, ValidatorError>(1000u64),
{
    let _ = body;
    Ok(1000)
}

/// Every element of a Stellar `records` array carries a `sequence` integer.
pub open spec fn stellar_records_ok(rs: Seq<JsonValue>) -> bool {
    forall|i: int| 0 <= i < rs.len() ==> #[trigger] field_u64(rs[i], "sequence"@) is Some
}

/// Tip of a Stellar ledgers response: `_embedded.records` is an array of
/// objects each carrying a `sequence` integer; the array must be non-empty
/// and the tip is the first record's sequence.
pub open spec fn stellar_tip_of(doc: Option<JsonValue>) -> Result<u64, ValidatorError> {
    match doc {
        None => Err(ValidatorError::InvalidJson),
        Some(v) => match obj_field(v, "_embedded"@) {
            None => Err(ValidatorError::InvalidJson),
            Some(emb) => match obj_field(emb, "records"@) {
                Some(JsonValue::Arr(rs)) => {
                    if !stellar_records_ok(rs@) {
                        Err(ValidatorError::InvalidJson)
                    } else if rs@.len() == 0 {
                        Err(ValidatorError::InvalidTip)
                    } else {
                        Ok(field_u64(rs@[0], "sequence"@).unwrap())
                    }
                },
                _ => Err(ValidatorError::InvalidJson),
            },
        },
    }
}

#[verifier::loop_isolation(false)]
pub fn stellar_validator(body: &[u8]) -> (r: Result<u64, ValidatorError>)
    ensures
        r == stellar_tip_of(json_of(body@)),
{
    let doc = parse_json(body);
    match doc {
        None => Err(ValidatorError::InvalidJson),
        Some(v) => match get_field(&v, "_embedded") {
            None => Err(ValidatorError::InvalidJson),
            Some(emb) => match get_field(emb, "records") {
                Some(recs) => match recs {
                    JsonValue::Arr(rs) => {
                        let n = rs.len();
                        let mut i: usize = 0;
                        while i < n
                            invariant
                                i <= n,
                                forall|j: int|
                                    0 <= j < i ==> #[trigger] field_u64(
                                        rs@[j],
                                        "sequence"@,
                                    ) is Some,
                            decreases n - i,
                        {
                            match get_u64_field(&rs[i], "sequence") {
                                Some(_) => {},
                                None => {
                                    return Err(ValidatorError::InvalidJson);
                                },
                            }
                            i = i + 1;
                        }
                        if n == 0 {
                            Err(ValidatorError::InvalidTip)
                        } else {
                            match get_u64_field(&rs[0], "sequence") {
                                Some(t) => Ok(t),
                                None => Err(ValidatorError::InvalidTip),
                            }
                        }
                    },
                    _ => Err(ValidatorError::InvalidJson),
                },
                None => Err(ValidatorError::InvalidJson),
            },
        },
    }
}

/// Tip of an Algorand status response: the `last-round` integer.
pub open spec fn algorand_tip_of(doc: Option<JsonValue>) -> Result<u64, ValidatorError> {
    match doc {
        None => Err(ValidatorError::InvalidJson),
        Some(v) => match field_u64(v, "last-round"@) {
            None => Err(ValidatorError::InvalidJson),
            Some(t) => Ok(t),
        },
    }
}

pub fn algorand_validator(body: &[u8]) -> (r: Result<u64, ValidatorError>)
    ensures
        r == algorand_tip_of(json_of(body@)),
{
    let doc = parse_json(body);
    match doc {
        None => Err(ValidatorError::InvalidJson),
        Some(v) => match get_u64_field(&v, "last-round") {
            None => Err(ValidatorError::InvalidJson),
            Some(t) => Ok(t),
        },
    }
}

/// Tip of a TON masterchain info response: an object carrying `ok`
/// (boolean) and `result.last.seqno` (integer); `ok` must be true and the
/// tip is the sequence number.
pub open spec fn ton_tip_of(doc: Option<JsonValue>) -> Result<u64, ValidatorError> {
    match doc {
        None => Err(ValidatorError::InvalidJson),
        Some(v) => match obj_field(v, "result"@) {
            None => Err(ValidatorError::InvalidJson),
            Some(res) => match obj_field(res, "last"@) {
                None => Err(ValidatorError::InvalidJson),
                Some(last) => {
                    if field_bool(v, "ok"@) is None || field_u64(last, "seqno"@) is None {
                        Err(ValidatorError::InvalidJson)
                    } else if field_bool(v, "ok"@) != Some(true) {
                        Err(ValidatorError::InvalidTip)
                    } else {
                        Ok(field_u64(last, "seqno"@).unwrap())
                    }
                },
            },
        },
    }
}

pub fn ton_validator(body: &[u8]) -> (r: Result<u64, ValidatorError>)
    ensures
        r == ton_tip_of(json_of(body@)),
{
    let doc = parse_json(body);
    match doc {
        None => Err(ValidatorError::InvalidJson),
        Some(v) => match get_field(&v, "result") {
            None => Err(ValidatorError::InvalidJson),
            Some(res) => match get_field(res, "last") {
                None => Err(ValidatorError::InvalidJson),
                Some(last) => {
                    let ok = get_bool_field(&v, "ok");
                    let seqno = get_u64_field(last, "seqno");
                    match (ok, seqno) {
                        (Some(okv), Some(t)) => {
                            if !okv {
                                Err(ValidatorError::InvalidTip)
                            } else {
                                Ok(t)
                            }
                        },
                        _ => Err(ValidatorError::InvalidJson),
                    }
                },
            },
        },
    }
}

/// Tip of a Polkadot `system_syncState` response: an object carrying
/// `jsonrpc` (string), `id` (integer) and a `result` object with
/// `currentBlock`, `highestBlock` and `startingBlock` integers; `jsonrpc`
/// must be `"2.0"` and the tip is `highestBlock`.
pub open spec fn polkadot_tip_of(doc: Option<JsonValue>) -> Result<u64, ValidatorError> {
    match doc {
        None => Err(ValidatorError::InvalidJson),
        Some(v) => match obj_field(v, "result"@) {
            None => Err(ValidatorError::InvalidJson),
            Some(res) => {
                if field_str(v, "jsonrpc"@) is None || field_u64(v, "id"@) is None || field_u64(
                    res,
                    "currentBlock"@,
                ) is None || field_u64(res, "highestBlock"@) is None || field_u64(
                    res,
                    "startingBlock"@,
                ) is None {
                    Err(ValidatorError::InvalidJson)
                } else if field_str(v, "jsonrpc"@) != Some("2.0"@) {
                    Err(ValidatorError::InvalidTip)
                } else {
                    Ok(field_u64(res, "highestBlock"@).unwrap())
                }
            },
        },
    }
}

pub fn polkadot_validator(body: &[u8]) -> (r: Result<u64, ValidatorError>)
    ensures
        r == polkadot_tip_of(json_of(body@)),
{
    let doc = parse_json(body);
    match doc {
        None => Err(ValidatorError::InvalidJson),
        Some(v) => match get_field(&v, "result") {
            None => Err(ValidatorError::InvalidJson),
            Some(res) => {
                let jsonrpc = get_str_field(&v, "jsonrpc");
                let id = get_u64_field(&v, "id");
                let current = get_u64_field(res, "currentBlock");
                let highest = get_u64_field(res, "highestBlock");
                let starting = get_u64_field(res, "startingBlock");
                match (jsonrpc, id, current, highest, starting) {
                    (Some(jr), Some(_), Some(_), Some(t), Some(_)) => {
                        if !string_eq_str(jr, "2.0") {
                            Err(ValidatorError::InvalidTip)
                        } else {
                            Ok(t)
                        }
                    },
                    _ => Err(ValidatorError::InvalidJson),
                }
            },
        },
    }
}

/// What the validator of the given kind extracts from a parsed document.
pub open spec fn tip_of(kind: ValidatorKind, doc: Option<JsonValue>) -> Result<
    u64,
    ValidatorError,
> {
    match kind {
        ValidatorKind::Ethereum => eth_tip_of(doc),
        ValidatorKind::Ripple => ripple_tip_of(doc),
        ValidatorKind::Cosmos => cosmos_tip_of(doc),
        ValidatorKind::Rosetta => rosetta_tip_of(doc),
        ValidatorKind::Solana => solana_tip_of(doc),
        ValidatorKind::Bitcoin => bitcoin_tip_of(doc),
        ValidatorKind::Tron => tron_tip_of(doc),
        ValidatorKind::TronGrpc => Ok(1000u64),
        ValidatorKind::Stellar => stellar_tip_of(doc),
        ValidatorKind::Algorand => algorand_tip_of(doc),
        ValidatorKind::Ton => ton_tip_of(doc),
        ValidatorKind::Polkadot => polkadot_tip_of(doc),
    }
}

/// Run the validator of the given kind over response bytes.
pub fn validate_response(kind: ValidatorKind, body: &[u8]) -> (r: Result<u64, ValidatorError>)
    ensures
        r == tip_of(kind, json_of(body@)),
{
    match kind {
        ValidatorKind::Ethereum => eth_validator(body),
        ValidatorKind::Ripple => ripple_validator(body),
        ValidatorKind::Cosmos => cosmos_validator(body),
        ValidatorKind::Rosetta => rosetta_validator(body),
        ValidatorKind::Solana => solana_validator(body),
        ValidatorKind::Bitcoin => bitcoin_validator(body),
        ValidatorKind::Tron => tron_validator(body),
        ValidatorKind::TronGrpc => tron_grpc_validator(body),
        ValidatorKind::Stellar => stellar_validator(body),
        ValidatorKind::Algorand => algorand_validator(body),
        ValidatorKind::Ton => ton_validator(body),
        ValidatorKind::Polkadot => polkadot_validator(body),
    }
}

/// Validators are total functions of the response bytes: equal bytes yield
/// the same tip or the same error kind.
pub proof fn lemma_validator_deterministic(kind: ValidatorKind, b1: Seq<u8>, b2: Seq<u8>)
    requires
        b1 == b2,
    ensures
        tip_of(kind, json_of(b1)) == tip_of(kind, json_of(b2)),
{
}

} // verus!
