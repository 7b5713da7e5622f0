use chain_proxy::numeric::{parse_u64_str, u64_to_dec_string};
use chain_proxy::validators::{validate_response, ValidatorError, ValidatorKind};

#[test]
fn test_parse_u64_decimal() {
    assert_eq!(parse_u64_str("12345", 10), Some(12345));
    assert_eq!(parse_u64_str("0", 10), Some(0));
    assert_eq!(parse_u64_str("+7", 10), Some(7));
    assert_eq!(parse_u64_str("18446744073709551615", 10), Some(u64::MAX));
    assert_eq!(parse_u64_str("18446744073709551616", 10), None);
    assert_eq!(parse_u64_str("", 10), None);
    assert_eq!(parse_u64_str("+", 10), None);
    assert_eq!(parse_u64_str("-1", 10), None);
    assert_eq!(parse_u64_str("12a", 10), None);
    assert_eq!(parse_u64_str(" 1", 10), None);
}

#[test]
fn test_parse_u64_hex() {
    assert_eq!(parse_u64_str("ff", 16), Some(255));
    assert_eq!(parse_u64_str("FF", 16), Some(255));
    assert_eq!(parse_u64_str("0", 16), Some(0));
    assert_eq!(parse_u64_str("10", 16), Some(16));
    assert_eq!(parse_u64_str("ffffffffffffffff", 16), Some(u64::MAX));
    assert_eq!(parse_u64_str("10000000000000000", 16), None);
    assert_eq!(parse_u64_str("zz", 16), None);
    assert_eq!(parse_u64_str("", 16), None);
}

#[test]
fn test_u64_to_dec_string() {
    assert_eq!(u64_to_dec_string(0).as_str(), "0");
    assert_eq!(u64_to_dec_string(7).as_str(), "7");
    assert_eq!(u64_to_dec_string(502).as_str(), "502");
    assert_eq!(u64_to_dec_string(65535).as_str(), "65535");
    assert_eq!(u64_to_dec_string(u64::MAX).as_str(), "18446744073709551615");
}

#[test]
fn test_ethereum_validator() {
    let ok = br#"{"jsonrpc":"2.0","id":1,"result":"0x10"}"#;
    assert_eq!(validate_response(ValidatorKind::Ethereum, ok), Ok(16));
    let spaced = br#"  {"jsonrpc":"2.0","id":1,"result":"0xff","extra":[1,2]}  "#;
    assert_eq!(validate_response(ValidatorKind::Ethereum, spaced), Ok(255));
    let wrong_version = br#"{"jsonrpc":"1.0","id":1,"result":"0x10"}"#;
    assert_eq!(
        validate_response(ValidatorKind::Ethereum, wrong_version),
        Err(ValidatorError::InvalidTip)
    );
    let missing_id = br#"{"jsonrpc":"2.0","result":"0x10"}"#;
    assert_eq!(
        validate_response(ValidatorKind::Ethereum, missing_id),
        Err(ValidatorError::InvalidJson)
    );
    let bad_hex = br#"{"jsonrpc":"2.0","id":1,"result":"0xzz"}"#;
    assert_eq!(
        validate_response(ValidatorKind::Ethereum, bad_hex),
        Err(ValidatorError::InvalidTip)
    );
    let short_result = br#"{"jsonrpc":"2.0","id":1,"result":"0"}"#;
    assert_eq!(
        validate_response(ValidatorKind::Ethereum, short_result),
        Err(ValidatorError::InvalidTip)
    );
    assert_eq!(
        validate_response(ValidatorKind::Ethereum, b"not json"),
        Err(ValidatorError::InvalidJson)
    );
}

#[test]
fn test_ripple_validator() {
    let ok = br#"{"result":{"ledger_hash":"ABCD","ledger_index":82505556,"status":"success"}}"#;
    assert_eq!(validate_response(ValidatorKind::Ripple, ok), Ok(82505556));
    let bad_status =
        br#"{"result":{"ledger_hash":"ABCD","ledger_index":82505556,"status":"error"}}"#;
    assert_eq!(
        validate_response(ValidatorKind::Ripple, bad_status),
        Err(ValidatorError::InvalidTip)
    );
    let missing_hash = br#"{"result":{"ledger_index":82505556,"status":"success"}}"#;
    assert_eq!(
        validate_response(ValidatorKind::Ripple, missing_hash),
        Err(ValidatorError::InvalidJson)
    );
}

#[test]
fn test_cosmos_validator() {
    let ok = br#"{"block":{"header":{"height":"12345"}}}"#;
    assert_eq!(validate_response(ValidatorKind::Cosmos, ok), Ok(12345));
    let bad_height = br#"{"block":{"header":{"height":"abc"}}}"#;
    assert_eq!(
        validate_response(ValidatorKind::Cosmos, bad_height),
        Err(ValidatorError::InvalidTip)
    );
    let missing = br#"{"block":{}}"#;
    assert_eq!(
        validate_response(ValidatorKind::Cosmos, missing),
        Err(ValidatorError::InvalidJson)
    );
}

#[test]
fn test_rosetta_validator() {
    let ok = br#"{"current_block_identifier":{"index":9890123,"hash":"aa"}}"#;
    assert_eq!(validate_response(ValidatorKind::Rosetta, ok), Ok(9890123));
    let missing_hash = br#"{"current_block_identifier":{"index":9890123}}"#;
    assert_eq!(
        validate_response(ValidatorKind::Rosetta, missing_hash),
        Err(ValidatorError::InvalidJson)
    );
}

#[test]
fn test_solana_validator() {
    let ok = br#"{"jsonrpc":"2.0","id":1,"result":{"absoluteSlot":166598,"epoch":27}}"#;
    assert_eq!(validate_response(ValidatorKind::Solana, ok), Ok(166598));
    let wrong_version = br#"{"jsonrpc":"1.0","id":1,"result":{"absoluteSlot":166598}}"#;
    assert_eq!(
        validate_response(ValidatorKind::Solana, wrong_version),
        Err(ValidatorError::InvalidTip)
    );
    let no_slot = br#"{"jsonrpc":"2.0","id":1,"result":{"epoch":27}}"#;
    assert_eq!(
        validate_response(ValidatorKind::Solana, no_slot),
        Err(ValidatorError::InvalidJson)
    );
}

#[test]
fn test_bitcoin_validator() {
    let ok = br#"{"id":"1.0","result":868999,"error":null}"#;
    assert_eq!(validate_response(ValidatorKind::Bitcoin, ok), Ok(868999));
    let wrong_id = br#"{"id":"2.0","result":868999}"#;
    assert_eq!(
        validate_response(ValidatorKind::Bitcoin, wrong_id),
        Err(ValidatorError::InvalidTip)
    );
    let float_result = br#"{"id":"1.0","result":1.5}"#;
    assert_eq!(
        validate_response(ValidatorKind::Bitcoin, float_result),
        Err(ValidatorError::InvalidJson)
    );
}

#[test]
fn test_tron_validator() {
    let ok = br#"{"block_header":{"raw_data":{"number":66240000}}}"#;
    assert_eq!(validate_response(ValidatorKind::Tron, ok), Ok(66240000));
    let missing = br#"{"block_header":{"raw_data":{}}}"#;
    assert_eq!(
        validate_response(ValidatorKind::Tron, missing),
        Err(ValidatorError::InvalidJson)
    );
}

#[test]
fn test_tron_grpc_validator() {
    assert_eq!(validate_response(ValidatorKind::TronGrpc, b"anything at all"), Ok(1000));
    assert_eq!(validate_response(ValidatorKind::TronGrpc, b""), Ok(1000));
}

#[test]
fn test_stellar_validator() {
    let ok = br#"{"_embedded":{"records":[{"sequence":53872620},{"sequence":53872619}]}}"#;
    assert_eq!(validate_response(ValidatorKind::Stellar, ok), Ok(53872620));
    let empty = br#"{"_embedded":{"records":[]}}"#;
    assert_eq!(
        validate_response(ValidatorKind::Stellar, empty),
        Err(ValidatorError::InvalidTip)
    );
    let bad_record = br#"{"_embedded":{"records":[{"sequence":1},{"seq":2}]}}"#;
    assert_eq!(
        validate_response(ValidatorKind::Stellar, bad_record),
        Err(ValidatorError::InvalidJson)
    );
}

#[test]
fn test_algorand_validator() {
    let ok = br#"{"last-round":44000000}"#;
    assert_eq!(validate_response(ValidatorKind::Algorand, ok), Ok(44000000));
    let negative = br#"{"last-round":-1}"#;
    assert_eq!(
        validate_response(ValidatorKind::Algorand, negative),
        Err(ValidatorError::InvalidJson)
    );
}

#[test]
fn test_ton_validator() {
    let ok = br#"{"ok":true,"result":{"last":{"seqno":40000000}}}"#;
    assert_eq!(validate_response(ValidatorKind::Ton, ok), Ok(40000000));
    let not_ok = br#"{"ok":false,"result":{"last":{"seqno":40000000}}}"#;
    assert_eq!(
        validate_response(ValidatorKind::Ton, not_ok),
        Err(ValidatorError::InvalidTip)
    );
}

#[test]
fn test_polkadot_validator() {
    let ok =
        br#"{"jsonrpc":"2.0","id":1,"result":{"currentBlock":100,"highestBlock":105,"startingBlock":0}}"#;
    assert_eq!(validate_response(ValidatorKind::Polkadot, ok), Ok(105));
    let wrong_version =
        br#"{"jsonrpc":"1.0","id":1,"result":{"currentBlock":100,"highestBlock":105,"startingBlock":0}}"#;
    assert_eq!(
        validate_response(ValidatorKind::Polkadot, wrong_version),
        Err(ValidatorError::InvalidTip)
    );
}

#[test]
fn test_validators_same_bytes_same_outcome() {
    let body = br#"{"jsonrpc":"2.0","id":1,"result":"0x2a"}"#;
    let first = validate_response(ValidatorKind::Ethereum, body);
    let second = validate_response(ValidatorKind::Ethereum, body);
    assert_eq!(first, second);
    assert_eq!(first, Ok(42));
}
